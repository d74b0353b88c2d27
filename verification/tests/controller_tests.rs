use globe_view::controller::Controller;
use globe_view::controller::Phase;
use globe_view::fixed::SCALE;
use globe_view::peer::demo_peers;

// The Stockholm peer of the demo list projects, under the identity
// view, to pixel (416, 51) on the 720x720 canvas.
const STOCKHOLM_PX: i64 = 416;
const STOCKHOLM_PY: i64 = 51;

#[test]
fn starts_idle_at_identity() {
    let c = Controller::new();
    assert_eq!(c.pitch(), 0);
    assert_eq!(c.yaw(), 0);
    assert!(matches!(c.phase(), Phase::Idle));
}

#[test]
fn pointer_down_then_up_cycles_drag() {
    let mut c = Controller::new();
    c.on_pointer_down();
    assert!(matches!(c.phase(), Phase::Dragging));
    c.on_pointer_up();
    assert!(matches!(c.phase(), Phase::Idle));
}

#[test]
fn move_without_drag_is_ignored() {
    let mut c = Controller::new();
    let redraw = c.on_pointer_move(72, 72);
    assert!(!redraw);
    assert_eq!(c.pitch(), 0);
    assert_eq!(c.yaw(), 0);
}

#[test]
fn drag_accumulates_scaled_deltas() {
    let mut c = Controller::new();
    c.on_pointer_down();
    let redraw = c.on_pointer_move(72, 72);
    assert!(redraw);
    assert_eq!(c.pitch(), 3276);
    assert_eq!(c.yaw(), 3276);
}

#[test]
fn drag_yaw_wraps_into_one_turn() {
    let mut c = Controller::new();
    c.on_pointer_down();
    c.on_pointer_move(-72, 0);
    assert_eq!(c.yaw(), 202610);
    assert_eq!(c.pitch(), 0);
}

#[test]
fn extreme_drag_clamps_pitch_at_poles() {
    let mut c = Controller::new();
    c.on_pointer_down();
    c.on_pointer_move(0, 2_000_000_000);
    assert_eq!(c.pitch(), SCALE);
    c.on_pointer_move(0, -2_000_000_000);
    assert_eq!(c.pitch(), -SCALE);
    c.on_pointer_move(0, -2_000_000_000);
    assert_eq!(c.pitch(), -SCALE);
}

#[test]
fn click_near_stockholm_starts_animation() {
    let peers = demo_peers();
    let mut c = Controller::new();
    let hit = c.on_click(&peers, STOCKHOLM_PX + 5, STOCKHOLM_PY);
    assert!(hit);
    match c.phase() {
        Phase::Animating { target_pitch, target_yaw, step_pitch, step_yaw, ticks } => {
            assert_eq!(target_pitch, 33934);
            assert_eq!(target_yaw, 195557);
            assert_eq!(step_pitch, 678);
            assert_eq!(step_yaw, -207);
            assert_eq!(ticks, 0);
        }
        _ => panic!("expected an animation"),
    }
    // the rotation itself has not moved yet
    assert_eq!(c.pitch(), 0);
    assert_eq!(c.yaw(), 0);
}

#[test]
fn click_far_from_every_peer_is_a_no_op() {
    let peers = demo_peers();
    let mut c = Controller::new();
    let hit = c.on_click(&peers, STOCKHOLM_PX + 50, STOCKHOLM_PY);
    assert!(!hit);
    assert!(matches!(c.phase(), Phase::Idle));
}

#[test]
fn click_while_animating_is_ignored() {
    // Of the two readings of the source (ignore, or cancel-and-replace),
    // this library ignores clicks while a fly-to is in flight.
    let peers = demo_peers();
    let mut c = Controller::new();
    assert!(c.on_click(&peers, STOCKHOLM_PX, STOCKHOLM_PY));
    let hit = c.on_click(&peers, STOCKHOLM_PX, STOCKHOLM_PY);
    assert!(!hit);
    match c.phase() {
        Phase::Animating { ticks, .. } => assert_eq!(ticks, 0),
        _ => panic!("animation should still be in flight"),
    }
}

#[test]
fn tick_while_idle_is_a_no_op() {
    let mut c = Controller::new();
    let redraw = c.tick();
    assert!(!redraw);
    assert!(matches!(c.phase(), Phase::Idle));
}

#[test]
fn flyto_terminates_exactly_on_target() {
    let peers = demo_peers();
    let mut c = Controller::new();
    assert!(c.on_click(&peers, STOCKHOLM_PX, STOCKHOLM_PY));
    for _ in 0..=50 {
        let redraw = c.tick();
        assert!(redraw);
    }
    assert!(matches!(c.phase(), Phase::Idle));
    assert_eq!(c.pitch(), 33934);
    assert_eq!(c.yaw(), 195557);
    // a further tick changes nothing
    assert!(!c.tick());
    assert_eq!(c.pitch(), 33934);
}

#[test]
fn flyto_moves_by_one_step_per_tick() {
    let peers = demo_peers();
    let mut c = Controller::new();
    assert!(c.on_click(&peers, STOCKHOLM_PX, STOCKHOLM_PY));
    c.tick();
    assert_eq!(c.pitch(), 678);
    assert_eq!(c.yaw(), 205887 - 207);
    c.tick();
    assert_eq!(c.pitch(), 2 * 678);
}
