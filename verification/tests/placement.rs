use track_sim::mechanical::{DomainConstraint, FreeNBody15, FreeParticle, HamiltonianState, LagrangianState, FREE_NBODY_N};
use track_sim::pointer::{Hit, PointerAction, PointerPhase};
use track_sim::points::{handle_pointer, DragState};

type State = DragState<u64, (f32, f32)>;

#[test]
fn placing_a_point_does_not_grab_it() {
    let mut s: State = DragState::Idle;
    assert_eq!(handle_pointer(&mut s, PointerPhase::Press, Hit::Nothing), PointerAction::SpawnPoint);
    assert_eq!(s, DragState::Idle);
}

#[test]
fn grab_drag_release() {
    let mut s: State = DragState::Idle;
    handle_pointer(&mut s, PointerPhase::Press, Hit::Point { entity: 7, grab_offset: (0.5, -1.5) });
    assert_eq!(s, DragState::Dragging { entity: 7, grab_offset: (0.5, -1.5) });
    assert_eq!(
        handle_pointer(&mut s, PointerPhase::Drag, Hit::Nothing),
        PointerAction::MovePoint { entity: 7, grab_offset: (0.5, -1.5) }
    );
    assert_eq!(handle_pointer(&mut s, PointerPhase::Release, Hit::Nothing), PointerAction::Nothing);
    assert_eq!(s, DragState::Idle);
}

#[test]
fn idle_button_drops_the_point() {
    let mut s: State = DragState::Dragging { entity: 1, grab_offset: (0.0, 0.0) };
    handle_pointer(&mut s, PointerPhase::Idle, Hit::Nothing);
    assert_eq!(s, DragState::Idle);
}

#[test]
fn domain_constraint_defaults_to_unconstrained() {
    assert_eq!(DomainConstraint::default(), DomainConstraint::Unconstrained);
    assert_ne!(DomainConstraint::default(), DomainConstraint::UnitBox);
}

#[test]
fn state_types_hold_their_coordinates() {
    let l = LagrangianState { q: (0.25f32, 0.5f32), qdot: (1.0f32, -1.0f32) };
    assert_eq!(l.q, (0.25, 0.5));
    assert_eq!(l.qdot, (1.0, -1.0));
    let h = HamiltonianState { q: 3i32, p: -4i32 };
    assert_eq!((h.q, h.p), (3, -4));
    let _ = FreeParticle;
    let _: FreeNBody15 = track_sim::mechanical::FreeNBody;
    assert_eq!(FREE_NBODY_N, 15);
}
