# track_sim

A small 2D track-building toy with classical-mechanics bodies, split in two:

- `src/` — the verified library (Verus). It holds the plain state types of
  the mechanical systems (`mechanical`), the index logic of cubic Bezier
  splines — which control points form which segment, where a segment is
  sampled, how segment samples are joined — and the Bezier characteristic
  matrix with its Bernstein-basis law (`spline`), and the pointer state
  machines of the track editor and of the point-placement sketch
  (`pointer`, `track_editor`, `points`), with their laws as proof functions.
- `app/` — the Bevy program around it: input, rendering, and all
  floating-point dynamics (Euler integration, unit-box bounces, the knife
  edge, the 1/r potential, the N-body flock, spline evaluation).
- `tests/` — tests of the library on concrete values.
