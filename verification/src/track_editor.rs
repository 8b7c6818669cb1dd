use vstd::prelude::*;

use crate::pointer::{Hit, PointerAction, PointerPhase};
use crate::spline::{
    bezier_control_windows, bezier_segment_count, bezier_window, lemma_bezier_segment_count_bounds,
    lemma_bezier_window_entries,
};

verus! {

/// Drag state of the track editor, over entities `E` and cursor offsets `O`.
#[derive(Debug, PartialEq, Eq)]
pub enum DragState<E, O> {
    Idle,
    Dragging {
        entity: E,
        /// World cursor minus point position at press (avoids snap-to-cursor).
        grab_offset: O,
    },
    /// Control points changed; rebuild the spline once.
    NeedsSync,
}

impl<E, O> DragState<E, O> {
    /// Whether the spline is rebuilt this frame: while dragging, and once
    /// after the control points changed.
    pub open spec fn syncs(self) -> bool {
        self is Dragging || self is NeedsSync
    }

    /// Whether the spline has to be rebuilt from the control points now.
    pub fn should_sync(&self) -> (b: bool)
        ensures
            b == self.syncs(),
    {
        match self {
            DragState::Idle => false,
            DragState::Dragging { .. } => true,
            DragState::NeedsSync => true,
        }
    }
}

/// One pointer event of the editor: the next drag state and what the caller
/// has to do. `hit` is read on a press only.
pub open spec fn editor_step<E, O>(state: DragState<E, O>, phase: PointerPhase, hit: Hit<E, O>) -> (
    DragState<E, O>,
    PointerAction<E, O>,
) {
    match phase {
        PointerPhase::Press => match hit {
            Hit::Point { entity, grab_offset } => (
                DragState::Dragging { entity, grab_offset },
                PointerAction::Nothing,
            ),
            Hit::Nothing => (DragState::NeedsSync, PointerAction::SpawnPoint),
        },
        PointerPhase::Drag => match state {
            DragState::Dragging { entity, grab_offset } => (
                state,
                PointerAction::MovePoint { entity, grab_offset },
            ),
            _ => (state, PointerAction::Nothing),
        },
        PointerPhase::Release => match state {
            DragState::Dragging { .. } => (DragState::NeedsSync, PointerAction::Nothing),
            _ => (state, PointerAction::Nothing),
        },
        PointerPhase::Idle => (state, PointerAction::Nothing),
    }
}

/// The editor's pointer logic: a press on a point starts dragging it, a press
/// on empty space spawns a new control point, a drag moves the grabbed point,
/// and a release ends the drag with one more rebuild of the spline.
pub fn handle_pointer<E: Copy, O: Copy>(
    drag: &mut DragState<E, O>,
    phase: PointerPhase,
    hit: Hit<E, O>,
) -> (action: PointerAction<E, O>)
    ensures
        (*final(drag), action) == editor_step(*old(drag), phase, hit),
{
    match phase {
        PointerPhase::Press => match hit {
            Hit::Point { entity, grab_offset } => {
                *drag = DragState::Dragging { entity, grab_offset };
                PointerAction::Nothing
            },
            Hit::Nothing => {
                *drag = DragState::NeedsSync;
                PointerAction::SpawnPoint
            },
        },
        PointerPhase::Drag => match *drag {
            DragState::Dragging { entity, grab_offset } => PointerAction::MovePoint {
                entity,
                grab_offset,
            },
            _ => PointerAction::Nothing,
        },
        PointerPhase::Release => {
            match *drag {
                DragState::Dragging { .. } => {
                    *drag = DragState::NeedsSync;
                },
                _ => {},
            }
            PointerAction::Nothing
        },
        PointerPhase::Idle => PointerAction::Nothing,
    }
}

/// The drag state after a rebuild: a pending rebuild is done, a drag goes on.
pub open spec fn after_sync<E, O>(state: DragState<E, O>) -> DragState<E, O> {
    if state is NeedsSync {
        DragState::Idle
    } else {
        state
    }
}

/// Whether every control point could be looked up.
pub open spec fn all_present<P>(positions: Seq<Option<P>>) -> bool {
    forall|i: int| 0 <= i < positions.len() ==> (#[trigger] positions[i]) is Some
}

/// The looked-up positions, in spawn order.
pub open spec fn present_values<P>(positions: Seq<Option<P>>) -> Seq<P> {
    positions.map_values(|o: Option<P>| o->0)
}

/// Rebuilds the spline from the control points' positions, in spawn order,
/// when the drag state asks for it. Returns `None` when nothing is rebuilt,
/// and otherwise the control windows of the new spline's segments: none at
/// all (the empty spline) when some control point is gone, else the windows
/// of all positions. A pending rebuild is cleared.
pub fn sync_spline_from_points<E: Copy, O: Copy, P: Copy>(
    drag: &mut DragState<E, O>,
    positions: &Vec<Option<P>>,
) -> (rebuilt: Option<Vec<[P; 4]>>)
    ensures
        rebuilt is Some <==> old(drag).syncs(),
        *final(drag) == after_sync(*old(drag)),
        rebuilt matches Some(windows) ==> {
            if all_present(positions@) {
                &&& windows@.len() == bezier_segment_count(positions@.len())
                &&& forall|i: int|
                    0 <= i < windows@.len() ==> #[trigger] windows@[i]@ == bezier_window(
                        present_values(positions@),
                        i,
                    )
            } else {
                windows@.len() == 0
            }
        },
        rebuilt matches Some(windows) ==> (exists|k: int|
            0 <= k < positions@.len() && (#[trigger] positions@[k]) is None) ==> windows@.len()
            == 0,
        rebuilt matches Some(windows) ==> (forall|k: int|
            0 <= k < positions@.len() ==> (#[trigger] positions@[k]) is Some) ==> {
            &&& positions@.len() < 4 ==> windows@.len() == 0
            &&& positions@.len() >= 4 ==> 3 * windows@.len() + 1 <= positions@.len() < 3
                * windows@.len() + 4
            &&& forall|i: int, j: int|
                0 <= i < windows@.len() && 0 <= j < 4 ==> positions@[3 * i + j] == Some(
                    #[trigger] windows@[i]@[j],
                )
        },
{
    if !drag.should_sync() {
        return None;
    }
    let mut values: Vec<P> = Vec::new();
    let mut i: usize = 0;
    while i < positions.len()
        invariant
            *drag == *old(drag),
            old(drag).syncs(),
            i <= positions@.len(),
            values@.len() == i,
            forall|k: int| 0 <= k < i ==> (#[trigger] positions@[k]) is Some,
            forall|k: int| 0 <= k < i ==> #[trigger] values@[k] == positions@[k]->0,
        decreases positions@.len() - i,
    {
        match positions[i] {
            Some(p) => values.push(p),
            None => {
                match *drag {
                    DragState::NeedsSync => {
                        *drag = DragState::Idle;
                    },
                    _ => {},
                }
                return Some(Vec::new());
            },
        }
        i = i + 1;
    }
    assert(values@ =~= present_values(positions@));
    let windows = bezier_control_windows(values.as_slice());
    proof {
        lemma_bezier_segment_count_bounds(positions@.len());
        assert forall|a: int, b: int|
            0 <= a < windows@.len() && 0 <= b < 4 implies positions@[3 * a + b] == Some(
            #[trigger] windows@[a]@[b],
        ) by {
            lemma_rebuilt_segments_follow_spawn_order(positions@, a, b);
            assert(windows@[a]@ == bezier_window(values@, a));
        }
    }
    match *drag {
        DragState::NeedsSync => {
            *drag = DragState::Idle;
        },
        _ => {},
    }
    Some(windows)
}

/// With every control point present, control point `j` of segment `i` of
/// the rebuilt spline is the `3i + j`-th spawned point: the first segment
/// starts at the first spawned point, whatever is left over at the end.
pub proof fn lemma_rebuilt_segments_follow_spawn_order<P>(positions: Seq<Option<P>>, i: int, j: int)
    requires
        all_present(positions),
        0 <= i < bezier_segment_count(positions.len()),
        0 <= j < 4,
    ensures
        3 * i + j < positions.len(),
        positions[3 * i + j] == Some(bezier_window(present_values(positions), i)[j]),
{
    lemma_bezier_segment_count_bounds(positions.len());
    assert(3 * i + 4 <= 3 * bezier_segment_count(positions.len()) + 1);
    let v = present_values(positions);
    assert(v.len() == positions.len());
    lemma_bezier_window_entries(v, i, j);
    assert(positions[3 * i + j] is Some);
}

/// A press on a point grabs that point, remembering its grab offset, and asks
/// the caller for nothing, whatever the editor was doing.
pub proof fn lemma_press_on_point_grabs<E, O>(state: DragState<E, O>, entity: E, grab_offset: O)
    ensures
        editor_step(state, PointerPhase::Press, Hit::Point { entity, grab_offset }) == (
            DragState::Dragging { entity, grab_offset },
            PointerAction::<E, O>::Nothing,
        ),
{
}

/// Syncing: the spline is rebuilt in every state but `Idle`; afterwards no
/// rebuild is pending, an idle editor stays idle and a drag goes on.
pub proof fn lemma_sync_settles<E, O>(state: DragState<E, O>)
    ensures
        state.syncs() <==> !(state is Idle),
        !(after_sync(state) is NeedsSync),
        state is Idle ==> after_sync(state) == state,
        state is Dragging ==> after_sync(state) == state,
        state is NeedsSync ==> after_sync(state) == DragState::<E, O>::Idle,
{
}

/// Only a press on empty space spawns a point; every other event leaves the
/// spawning alone, and a drag never spawns.
pub proof fn lemma_only_empty_press_spawns<E, O>(
    state: DragState<E, O>,
    phase: PointerPhase,
    hit: Hit<E, O>,
)
    ensures
        editor_step(state, phase, hit).1 is SpawnPoint <==> (phase == PointerPhase::Press
            && hit is Nothing),
        editor_step(state, PointerPhase::Release, hit).1 == PointerAction::<E, O>::Nothing,
        state is Dragging && phase == PointerPhase::Release ==> editor_step(state, phase, hit).0
            == DragState::<E, O>::NeedsSync,
{
}

/// A press on empty space spawns a point and asks for exactly one rebuild:
/// the next sync rebuilds and settles in `Idle`, and the one after does
/// nothing.
pub proof fn lemma_spawn_rebuilds_once<E, O>(state: DragState<E, O>)
    ensures
        editor_step(state, PointerPhase::Press, Hit::Nothing).1 == PointerAction::<E, O>::SpawnPoint,
        editor_step(state, PointerPhase::Press, Hit::<E, O>::Nothing).0.syncs(),
        after_sync(editor_step(state, PointerPhase::Press, Hit::<E, O>::Nothing).0)
            == DragState::<E, O>::Idle,
        !after_sync(editor_step(state, PointerPhase::Press, Hit::<E, O>::Nothing).0).syncs(),
{
}

/// A release followed by a sync always leaves the editor idle, and the
/// release asks for a rebuild exactly when a drag or a rebuild was under way.
pub proof fn lemma_release_then_sync_is_idle<E, O>(state: DragState<E, O>, hit: Hit<E, O>)
    ensures
        after_sync(editor_step(state, PointerPhase::Release, hit).0) == DragState::<E, O>::Idle,
        editor_step(state, PointerPhase::Release, hit).0.syncs() == state.syncs(),
        editor_step(state, PointerPhase::Release, hit).1 == PointerAction::<E, O>::Nothing,
{
}

/// Dragging and idling never change the drag state, a drag moves exactly the
/// grabbed point, and a sync keeps a drag going.
pub proof fn lemma_drag_keeps_state<E, O>(state: DragState<E, O>, hit: Hit<E, O>)
    ensures
        editor_step(state, PointerPhase::Drag, hit).0 == state,
        editor_step(state, PointerPhase::Idle, hit).0 == state,
        editor_step(state, PointerPhase::Idle, hit).1 == PointerAction::<E, O>::Nothing,
        state matches DragState::Dragging { entity, grab_offset } ==> {
            &&& editor_step(state, PointerPhase::Drag, hit).1 == PointerAction::MovePoint {
                entity,
                grab_offset,
            }
            &&& after_sync(state) == state
        },
        !(state is Dragging) ==> editor_step(state, PointerPhase::Drag, hit).1
            == PointerAction::<E, O>::Nothing,
{
}

/// Only a press looks at what lies under the cursor.
pub proof fn lemma_hit_matters_only_on_press<E, O>(
    state: DragState<E, O>,
    phase: PointerPhase,
    a: Hit<E, O>,
    b: Hit<E, O>,
)
    requires
        phase != PointerPhase::Press,
    ensures
        editor_step(state, phase, a) == editor_step(state, phase, b),
{
}

} // verus!
