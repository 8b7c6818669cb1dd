//! Verified core of a small track-building and classical-mechanics toy:
//! the state types of the mechanical systems, the index logic that cuts a
//! list of control points into contiguous cubic Bezier segments and joins
//! their samples, and the pointer state machines of the point editors.
//! All floating-point arithmetic lives with the caller.

pub mod mechanical;
pub mod spline;
pub mod pointer;
pub mod track_editor;
pub mod points;
