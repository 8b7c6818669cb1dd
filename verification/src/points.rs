use vstd::prelude::*;

use crate::pointer::{Hit, PointerAction, PointerPhase};

verus! {

/// Drag state of the free point-placement tool, over entities `E` and cursor
/// offsets `O`.
#[derive(Debug, PartialEq, Eq)]
pub enum DragState<E, O> {
    Idle,
    Dragging {
        entity: E,
        /// World cursor minus point position at press (avoids snap-to-cursor).
        grab_offset: O,
    },
}

/// One pointer event of the placement tool: the next drag state and what the
/// caller has to do. `hit` is read on a press only.
pub open spec fn placement_step<E, O>(
    state: DragState<E, O>,
    phase: PointerPhase,
    hit: Hit<E, O>,
) -> (DragState<E, O>, PointerAction<E, O>) {
    match phase {
        PointerPhase::Press => match hit {
            Hit::Point { entity, grab_offset } => (
                DragState::Dragging { entity, grab_offset },
                PointerAction::Nothing,
            ),
            Hit::Nothing => (state, PointerAction::SpawnPoint),
        },
        PointerPhase::Drag => match state {
            DragState::Dragging { entity, grab_offset } => (
                state,
                PointerAction::MovePoint { entity, grab_offset },
            ),
            DragState::Idle => (state, PointerAction::Nothing),
        },
        PointerPhase::Release | PointerPhase::Idle => (DragState::Idle, PointerAction::Nothing),
    }
}

/// The placement tool's pointer logic: a press on a point grabs it, a press
/// on empty space places a new point, a drag moves the grabbed point, and a
/// release (or no button at all) drops it.
pub fn handle_pointer<E: Copy, O: Copy>(
    drag: &mut DragState<E, O>,
    phase: PointerPhase,
    hit: Hit<E, O>,
) -> (action: PointerAction<E, O>)
    ensures
        (*final(drag), action) == placement_step(*old(drag), phase, hit),
{
    match phase {
        PointerPhase::Press => match hit {
            Hit::Point { entity, grab_offset } => {
                *drag = DragState::Dragging { entity, grab_offset };
                PointerAction::Nothing
            },
            Hit::Nothing => PointerAction::SpawnPoint,
        },
        PointerPhase::Drag => match *drag {
            DragState::Dragging { entity, grab_offset } => PointerAction::MovePoint {
                entity,
                grab_offset,
            },
            DragState::Idle => PointerAction::Nothing,
        },
        PointerPhase::Release | PointerPhase::Idle => {
            *drag = DragState::Idle;
            PointerAction::Nothing
        },
    }
}

/// A drag never places a point: with nothing grabbed it does nothing, with a
/// point grabbed it moves exactly that point; only a press on empty space
/// places a point.
pub proof fn lemma_drag_never_places<E, O>(
    state: DragState<E, O>,
    phase: PointerPhase,
    hit: Hit<E, O>,
)
    ensures
        state is Idle ==> placement_step(state, PointerPhase::Drag, hit).1
            == PointerAction::<E, O>::Nothing,
        state matches DragState::Dragging { entity, grab_offset } ==> (placement_step(
            state,
            PointerPhase::Drag,
            hit,
        ).1 == (PointerAction::MovePoint { entity, grab_offset })),
        placement_step(state, phase, hit).1 is SpawnPoint <==> (phase == PointerPhase::Press
            && hit is Nothing),
        placement_step(state, phase, hit).1 is MovePoint ==> (phase == PointerPhase::Drag
            && (state is Dragging)),
{
}

/// A press on a point grabs that point, remembering its grab offset.
pub proof fn lemma_placement_press_on_point_grabs<E, O>(
    state: DragState<E, O>,
    entity: E,
    grab_offset: O,
)
    ensures
        placement_step(state, PointerPhase::Press, Hit::Point { entity, grab_offset }) == (
            DragState::Dragging { entity, grab_offset },
            PointerAction::<E, O>::Nothing,
        ),
{
}

/// Placing a point never grabs it, and once the button is up nothing is held.
pub proof fn lemma_placement_releases<E, O>(state: DragState<E, O>, hit: Hit<E, O>)
    ensures
        placement_step(state, PointerPhase::Press, Hit::<E, O>::Nothing) == (
            state,
            PointerAction::<E, O>::SpawnPoint,
        ),
        placement_step(state, PointerPhase::Release, hit).0 == DragState::<E, O>::Idle,
        placement_step(state, PointerPhase::Idle, hit).0 == DragState::<E, O>::Idle,
        placement_step(state, PointerPhase::Drag, hit).0 == state,
{
}

} // verus!
