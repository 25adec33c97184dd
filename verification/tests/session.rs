use monitor_scale::scene::{Point, VisualSize};
use monitor_scale::session::{
    frame_tick, reset_positions, FrameInput, MonitorId, SessionState,
};

const K: i64 = 65535;

fn vis() -> VisualSize {
    VisualSize { half_w: 100, half_h: 50 }
}

fn origin() -> Point {
    Point { x: 0, y: 0 }
}

fn tick(s: &mut SessionState, x: i64, y: i64, pressed: bool, released: bool) {
    frame_tick(
        s,
        FrameInput { pointer: Point { x, y }, pressed, released },
        vis(),
        vis(),
        origin(),
    );
}

#[test]
fn initial_layout() {
    let s = SessionState::new();
    assert_eq!(s.monitor_a.offset, Point { x: -150, y: 0 });
    assert_eq!(s.monitor_b.offset, Point { x: 150, y: 0 });
    assert_eq!(s.monitor_a.rotation.cos_q, K);
    assert_eq!(s.monitor_a.rotation.sin_q, 0);
    assert_eq!(s.monitor_b.rotation.cos_q, K);
    assert_eq!(s.monitor_b.rotation.sin_q, 0);
    assert_eq!(s.drag.active_target, None);
}

#[test]
fn press_drag_release() {
    // press at the exact center of monitor A, drag by (10, -5), release
    let mut s = SessionState::new();
    tick(&mut s, -150, 0, true, false);
    assert_eq!(s.drag.active_target, Some(MonitorId::A));
    assert_eq!(s.monitor_a.offset, Point { x: -150, y: 0 });
    tick(&mut s, -140, -5, false, false);
    assert_eq!(s.monitor_a.offset, Point { x: -140, y: -5 });
    assert_eq!(s.monitor_b.offset, Point { x: 150, y: 0 });
    tick(&mut s, -140, -5, false, true);
    assert_eq!(s.drag.active_target, None);
    // after the release, further movement changes nothing
    tick(&mut s, 0, 0, false, false);
    assert_eq!(s.monitor_a.offset, Point { x: -140, y: -5 });
}

#[test]
fn press_outside_both_monitors() {
    let mut s = SessionState::new();
    tick(&mut s, 0, 300, true, false);
    assert_eq!(s.drag.active_target, None);
    // the delta base still follows the press
    assert_eq!(s.drag.last_pointer, Point { x: 0, y: 300 });
    assert_eq!(s.monitor_a.offset, Point { x: -150, y: 0 });
    assert_eq!(s.monitor_b.offset, Point { x: 150, y: 0 });
}

#[test]
fn press_over_monitor_b() {
    let mut s = SessionState::new();
    tick(&mut s, 150, 10, true, false);
    assert_eq!(s.drag.active_target, Some(MonitorId::B));
    tick(&mut s, 160, 10, false, false);
    assert_eq!(s.monitor_b.offset, Point { x: 160, y: 0 });
    assert_eq!(s.monitor_a.offset, Point { x: -150, y: 0 });
}

#[test]
fn overlapping_monitors_give_a_priority() {
    let mut s = SessionState::new();
    s.monitor_b.offset = s.monitor_a.offset;
    tick(&mut s, -150, 0, true, false);
    assert_eq!(s.drag.active_target, Some(MonitorId::A));
}

#[test]
fn drag_cannot_be_stolen() {
    // start a drag on monitor B, then press over monitor A without releasing
    let mut s = SessionState::new();
    tick(&mut s, 150, 0, true, false);
    assert_eq!(s.drag.active_target, Some(MonitorId::B));
    tick(&mut s, -150, 0, true, false);
    assert_eq!(s.drag.active_target, Some(MonitorId::B));
}

#[test]
fn press_and_release_in_one_frame() {
    let mut s = SessionState::new();
    tick(&mut s, -150, 0, true, true);
    assert_eq!(s.drag.active_target, None);
    assert_eq!(s.monitor_a.offset, Point { x: -150, y: 0 });
}

#[test]
fn reset_restores_the_default_layout() {
    let mut s = SessionState::new();
    tick(&mut s, -150, 0, true, false);
    tick(&mut s, 40, 60, false, false);
    s.monitor_b.rotation.cos_q = 0;
    s.monitor_b.rotation.sin_q = K;
    let tint_a = s.monitor_a.tint;
    reset_positions(&mut s);
    assert_eq!(s.monitor_a.offset, Point { x: -150, y: 0 });
    assert_eq!(s.monitor_b.offset, Point { x: 150, y: 0 });
    assert_eq!((s.monitor_a.rotation.cos_q, s.monitor_a.rotation.sin_q), (K, 0));
    assert_eq!((s.monitor_b.rotation.cos_q, s.monitor_b.rotation.sin_q), (K, 0));
    // tints are kept
    assert_eq!(s.monitor_a.tint, tint_a);
}

#[test]
fn reset_twice_equals_reset_once() {
    let mut s = SessionState::new();
    tick(&mut s, -150, 0, true, false);
    tick(&mut s, 25, -75, false, false);
    let mut once = s;
    reset_positions(&mut once);
    let mut twice = s;
    reset_positions(&mut twice);
    reset_positions(&mut twice);
    assert_eq!(once, twice);
}
