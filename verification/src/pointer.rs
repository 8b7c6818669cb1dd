use vstd::prelude::*;

verus! {

/// What the left mouse button did this frame.
#[derive(Clone, Copy, Debug, PartialEq, Eq, Structural)]
pub enum PointerPhase {
    Press,
    Drag,
    Release,
    Idle,
}

/// The phase of the left button from its three input flags: a press this
/// frame wins over a release this frame, which wins over a held button.
pub open spec fn phase_of(just_pressed: bool, just_released: bool, pressed: bool) -> PointerPhase {
    if just_pressed {
        PointerPhase::Press
    } else if just_released {
        PointerPhase::Release
    } else if pressed {
        PointerPhase::Drag
    } else {
        PointerPhase::Idle
    }
}

/// Classifies the left mouse button's state for this frame.
pub fn pointer_phase(just_pressed: bool, just_released: bool, pressed: bool) -> (phase:
    PointerPhase)
    ensures
        phase == phase_of(just_pressed, just_released, pressed),
        just_pressed ==> phase == PointerPhase::Press,
        !just_pressed && just_released ==> phase == PointerPhase::Release,
        !just_pressed && !just_released && pressed ==> phase == PointerPhase::Drag,
        !just_pressed && !just_released && !pressed ==> phase == PointerPhase::Idle,
{
    if just_pressed {
        PointerPhase::Press
    } else if just_released {
        PointerPhase::Release
    } else if pressed {
        PointerPhase::Drag
    } else {
        PointerPhase::Idle
    }
}

/// The phase follows the flags in priority order: a press this frame is a
/// `Press`; otherwise a release this frame is a `Release` whether or not the
/// button still reads as held; otherwise a held button is a `Drag`, and no
/// button is `Idle`.
pub proof fn lemma_phase_priority(just_pressed: bool, just_released: bool, pressed: bool)
    ensures
        just_pressed <==> phase_of(just_pressed, just_released, pressed) == PointerPhase::Press,
        (!just_pressed && just_released) <==> phase_of(just_pressed, just_released, pressed)
            == PointerPhase::Release,
        (!just_pressed && !just_released && pressed) <==> phase_of(
            just_pressed,
            just_released,
            pressed,
        ) == PointerPhase::Drag,
        (!just_pressed && !just_released && !pressed) <==> phase_of(
            just_pressed,
            just_released,
            pressed,
        ) == PointerPhase::Idle,
{
}

/// What a press landed on: a point (an entity `E`, with the offset `O` from
/// the point to the cursor, so that dragging does not snap), or nothing.
#[derive(Debug, PartialEq, Eq)]
pub enum Hit<E, O> {
    Point { entity: E, grab_offset: O },
    Nothing,
}

/// What the caller has to do after a pointer event.
#[derive(Debug, PartialEq, Eq)]
pub enum PointerAction<E, O> {
    /// Nothing to do.
    Nothing,
    /// Spawn a new point at the cursor.
    SpawnPoint,
    /// Move `entity` to the cursor minus `grab_offset`.
    MovePoint { entity: E, grab_offset: O },
}

} // verus!
