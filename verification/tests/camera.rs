use panoview::camera::{
    handle_event, tick, CameraState, Direction, InputEvent, KEY_ANGLE_STEP, ZOOM_IN_RATE,
    ZOOM_OUT_RATE,
};

#[test]
fn new_camera_is_idle() {
    let c = CameraState::new();
    assert!(c.is_idle());
    assert_eq!(c.yaw, 0);
    assert_eq!(c.pitch, 0);
    assert_eq!(c.zoom, 1_000_000);
}

#[test]
fn key_down_sets_rate_and_key_up_clears_it() {
    let mut c = CameraState::new();
    handle_event(&mut c, InputEvent::KeyDown(Direction::YawPos));
    assert_eq!(c.yaw_rate, KEY_ANGLE_STEP);
    assert!(!c.is_idle());
    handle_event(&mut c, InputEvent::KeyUp(Direction::YawPos));
    assert_eq!(c.yaw_rate, 0);
    assert!(c.is_idle());
}

#[test]
fn repeated_key_down_is_idempotent() {
    let mut c = CameraState::new();
    handle_event(&mut c, InputEvent::KeyDown(Direction::PitchNeg));
    let once = c.pitch_rate;
    handle_event(&mut c, InputEvent::KeyDown(Direction::PitchNeg));
    handle_event(&mut c, InputEvent::KeyDown(Direction::PitchNeg));
    assert_eq!(c.pitch_rate, once);
    assert_eq!(once, -KEY_ANGLE_STEP);
}

#[test]
fn zoom_keys_set_multiplicative_rates() {
    let mut c = CameraState::new();
    handle_event(&mut c, InputEvent::KeyDown(Direction::ZoomIn));
    assert_eq!(c.zoom_rate, ZOOM_IN_RATE);
    assert!(!c.is_idle());
    handle_event(&mut c, InputEvent::KeyUp(Direction::ZoomIn));
    assert_eq!(c.zoom_rate, 1_000_000);
    handle_event(&mut c, InputEvent::KeyDown(Direction::ZoomOut));
    assert_eq!(c.zoom_rate, ZOOM_OUT_RATE);
}

#[test]
fn tick_integrates_rates_and_requests_redraw() {
    let mut c = CameraState::new();
    handle_event(&mut c, InputEvent::KeyDown(Direction::YawPos));
    handle_event(&mut c, InputEvent::KeyDown(Direction::PitchPos));
    let redraw = tick(&mut c);
    assert!(redraw);
    assert_eq!(c.yaw, KEY_ANGLE_STEP);
    assert_eq!(c.pitch, KEY_ANGLE_STEP);
    let redraw2 = tick(&mut c);
    assert!(redraw2);
    assert_eq!(c.yaw, 2 * KEY_ANGLE_STEP);
}

#[test]
fn idle_tick_requests_no_redraw() {
    let mut c = CameraState::new();
    let redraw = tick(&mut c);
    assert!(!redraw);
    assert_eq!(c.yaw, 0);
    assert_eq!(c.zoom, 1_000_000);
}

#[test]
fn zoom_rate_integrates_multiplicatively() {
    let mut c = CameraState::new();
    handle_event(&mut c, InputEvent::KeyDown(Direction::ZoomIn));
    tick(&mut c);
    assert_eq!(c.zoom, 990_000);
    tick(&mut c);
    assert_eq!(c.zoom, 980_100);
}

#[test]
fn drag_down_then_up_leaves_orientation() {
    let mut c = CameraState::new();
    c.yaw = 123;
    c.pitch = -456;
    handle_event(&mut c, InputEvent::PointerDown);
    assert!(c.drag.is_some());
    handle_event(&mut c, InputEvent::PointerUp);
    assert!(c.drag.is_none());
    assert_eq!(c.yaw, 123);
    assert_eq!(c.pitch, -456);
}

#[test]
fn move_without_session_leaves_orientation() {
    let mut c = CameraState::new();
    c.yaw = 7;
    c.pitch = 8;
    handle_event(&mut c, InputEvent::PointerMove { x: 999, y: -999 });
    assert_eq!(c.yaw, 7);
    assert_eq!(c.pitch, 8);
    assert_eq!(c.pointer_x, 999);
    assert_eq!(c.pointer_y, -999);
}

#[test]
fn focus_lost_closes_session_without_mutating() {
    let mut c = CameraState::new();
    c.yaw = 11;
    c.pitch = 22;
    handle_event(&mut c, InputEvent::PointerDown);
    handle_event(&mut c, InputEvent::FocusLost);
    assert!(c.drag.is_none());
    assert_eq!(c.yaw, 11);
    assert_eq!(c.pitch, 22);
}

#[test]
fn drag_recomputes_from_anchor_not_incrementally() {
    let mut c = CameraState::new();
    handle_event(&mut c, InputEvent::PointerDown);
    handle_event(&mut c, InputEvent::PointerMove { x: 100_000, y: 50_000 });
    assert_eq!(c.yaw, -100_000);
    assert_eq!(c.pitch, 50_000);
    handle_event(&mut c, InputEvent::PointerMove { x: 100_000, y: 50_000 });
    assert_eq!(c.yaw, -100_000);
    assert_eq!(c.pitch, 50_000);
}

#[test]
fn drag_sensitivity_shrinks_with_zoom() {
    let mut c = CameraState::new();
    c.zoom = 2_000_000;
    handle_event(&mut c, InputEvent::PointerDown);
    handle_event(&mut c, InputEvent::PointerMove { x: 100_000, y: 0 });
    assert_eq!(c.yaw, -50_000);
}

#[test]
fn move_events_request_redraw_and_key_events_do_not() {
    let mut c = CameraState::new();
    assert!(!handle_event(&mut c, InputEvent::KeyDown(Direction::YawPos)));
    assert!(handle_event(&mut c, InputEvent::PointerMove { x: 1, y: 2 }));
    assert!(handle_event(&mut c, InputEvent::WheelLines { delta: 0 }));
    assert!(handle_event(&mut c, InputEvent::WheelPixels { delta: 0 }));
    assert!(!handle_event(&mut c, InputEvent::PointerDown));
}

#[test]
fn wheel_lines_scale_zoom_instantly() {
    let mut c = CameraState::new();
    handle_event(&mut c, InputEvent::WheelLines { delta: 1_000_000 });
    assert_eq!(c.zoom, 1_080_000);
    assert!(c.is_idle());
}

#[test]
fn wheel_pixels_scale_zoom_instantly() {
    let mut c = CameraState::new();
    handle_event(&mut c, InputEvent::WheelPixels { delta: -2_000_000 });
    assert_eq!(c.zoom, 980_000);
}
