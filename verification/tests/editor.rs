use track_sim::pointer::{pointer_phase, Hit, PointerAction, PointerPhase};
use track_sim::track_editor::{handle_pointer, sync_spline_from_points, DragState};

type State = DragState<u32, (i32, i32)>;

#[test]
fn pointer_phase_priorities() {
    assert_eq!(pointer_phase(true, true, true), PointerPhase::Press);
    assert_eq!(pointer_phase(false, true, true), PointerPhase::Release);
    assert_eq!(pointer_phase(false, false, true), PointerPhase::Drag);
    assert_eq!(pointer_phase(false, false, false), PointerPhase::Idle);
}

#[test]
fn press_on_empty_space_spawns_and_asks_for_rebuild() {
    let mut s: State = DragState::Idle;
    let a = handle_pointer(&mut s, PointerPhase::Press, Hit::Nothing);
    assert_eq!(a, PointerAction::SpawnPoint);
    assert_eq!(s, DragState::NeedsSync);
    assert!(s.should_sync());
}

#[test]
fn press_on_point_grabs_it_and_drag_moves_it() {
    let mut s: State = DragState::Idle;
    let a = handle_pointer(&mut s, PointerPhase::Press, Hit::Point { entity: 4, grab_offset: (1, -2) });
    assert_eq!(a, PointerAction::Nothing);
    assert_eq!(s, DragState::Dragging { entity: 4, grab_offset: (1, -2) });
    let a = handle_pointer(&mut s, PointerPhase::Drag, Hit::Nothing);
    assert_eq!(a, PointerAction::MovePoint { entity: 4, grab_offset: (1, -2) });
    assert_eq!(s, DragState::Dragging { entity: 4, grab_offset: (1, -2) });
}

#[test]
fn drag_without_grab_does_nothing() {
    let mut s: State = DragState::Idle;
    assert_eq!(handle_pointer(&mut s, PointerPhase::Drag, Hit::Nothing), PointerAction::Nothing);
    assert_eq!(s, DragState::Idle);
    let mut s: State = DragState::NeedsSync;
    assert_eq!(handle_pointer(&mut s, PointerPhase::Drag, Hit::Nothing), PointerAction::Nothing);
    assert_eq!(s, DragState::NeedsSync);
}

#[test]
fn release_after_drag_asks_for_one_rebuild() {
    let mut s: State = DragState::Dragging { entity: 1, grab_offset: (0, 0) };
    handle_pointer(&mut s, PointerPhase::Release, Hit::Nothing);
    assert_eq!(s, DragState::NeedsSync);
    let mut idle: State = DragState::Idle;
    handle_pointer(&mut idle, PointerPhase::Release, Hit::Nothing);
    assert_eq!(idle, DragState::Idle);
    let mut s: State = DragState::NeedsSync;
    handle_pointer(&mut s, PointerPhase::Idle, Hit::Nothing);
    assert_eq!(s, DragState::NeedsSync);
}

#[test]
fn sync_rebuilds_once_then_idles() {
    let mut s: State = DragState::NeedsSync;
    let positions: Vec<Option<i32>> = (0..7).map(Some).collect();
    let w = sync_spline_from_points(&mut s, &positions).expect("rebuild");
    assert_eq!(w, vec![[0, 1, 2, 3], [3, 4, 5, 6]]);
    assert_eq!(s, DragState::Idle);
    assert!(sync_spline_from_points(&mut s, &positions).is_none());
    assert_eq!(s, DragState::Idle);
}

#[test]
fn sync_keeps_rebuilding_while_dragging() {
    let mut s: State = DragState::Dragging { entity: 2, grab_offset: (3, 3) };
    let positions: Vec<Option<i32>> = (0..4).map(Some).collect();
    let w = sync_spline_from_points(&mut s, &positions).expect("rebuild");
    assert_eq!(w, vec![[0, 1, 2, 3]]);
    assert_eq!(s, DragState::Dragging { entity: 2, grab_offset: (3, 3) });
}

#[test]
fn sync_with_a_missing_point_gives_the_empty_spline() {
    let mut s: State = DragState::NeedsSync;
    let positions = vec![Some(0), Some(1), None, Some(3), Some(4)];
    let w = sync_spline_from_points(&mut s, &positions).expect("rebuild");
    assert!(w.is_empty());
    assert_eq!(s, DragState::Idle);
}

#[test]
fn sync_with_too_few_points_gives_the_empty_spline() {
    let mut s: State = DragState::NeedsSync;
    let positions = vec![Some(0), Some(1), Some(2)];
    assert_eq!(sync_spline_from_points(&mut s, &positions), Some(vec![]));
}

#[test]
fn spawn_then_two_syncs() {
    let mut s: State = DragState::Dragging { entity: 9, grab_offset: (0, 0) };
    handle_pointer(&mut s, PointerPhase::Release, Hit::Nothing);
    handle_pointer(&mut s, PointerPhase::Press, Hit::Nothing);
    let positions: Vec<Option<i32>> = (0..4).map(Some).collect();
    assert!(sync_spline_from_points(&mut s, &positions).is_some());
    assert!(sync_spline_from_points(&mut s, &positions).is_none());
}

#[test]
fn only_a_press_looks_at_the_hit() {
    for phase in [PointerPhase::Drag, PointerPhase::Release, PointerPhase::Idle] {
        let mut a: State = DragState::Dragging { entity: 3, grab_offset: (1, 1) };
        let mut b: State = DragState::Dragging { entity: 3, grab_offset: (1, 1) };
        let ra = handle_pointer(&mut a, phase, Hit::Nothing);
        let rb = handle_pointer(&mut b, phase, Hit::Point { entity: 8, grab_offset: (5, 5) });
        assert_eq!(ra, rb);
        assert_eq!(a, b);
    }
}
