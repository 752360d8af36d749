//! End-to-end tests of the overlay engine: input translation, per-frame
//! integration, clamping, cursor wrap and the projection extents.
//! All values are in micro-units (one window pixel or one real unit is
//! 1,000,000).

use flashlight_overlay::camera::CameraState;
use flashlight_overlay::cursor::Vec2;
use flashlight_overlay::state::{InputEvent, OverlayState};

const SCALE: i64 = 1_000_000;

fn px(p: i64) -> i64 {
    p * SCALE
}

#[test]
fn initial_state_matches_startup_values() {
    let s = OverlayState::new();
    assert_eq!(s.camera.target_x, 0);
    assert_eq!(s.camera.target_y, 0);
    assert_eq!(s.camera.zoom, SCALE);
    assert_eq!(s.camera.velocity, 0);
    assert_eq!(s.cursor.x, 0);
    assert_eq!(s.cursor.y, 0);
    assert_eq!(s.cursor.anchor, None);
    assert!(!s.flashlight.enabled);
    assert_eq!(s.flashlight.radius, 130 * SCALE);
    assert_eq!(s.flashlight.radius_velocity, 0);
    assert!(!s.ctrl_held);
}

#[test]
fn scroll_up_then_one_frame() {
    // One scroll-up line: velocity becomes 0.01; the next frame damps it
    // to 0.0095 and integrates the zoom to 1.0095.
    let mut s = OverlayState::new();
    assert!(s.apply_event(InputEvent::Scroll { delta: SCALE }));
    assert_eq!(s.camera.velocity, 10_000);
    s.frame_update(800, 600);
    assert_eq!(s.camera.velocity, 9_500);
    assert_eq!(s.camera.zoom, 1_009_500);
}

#[test]
fn zoom_and_radius_stay_bounded_under_any_scrolling() {
    let mut s = OverlayState::new();
    let deltas: [i64; 8] = [
        50 * SCALE,
        -900 * SCALE,
        123_456_789,
        i64::MAX,
        i64::MIN + 1,
        -1,
        7 * SCALE,
        -50_000 * SCALE,
    ];
    for (i, d) in deltas.iter().enumerate() {
        s.apply_event(InputEvent::Scroll { delta: *d });
        if i % 2 == 0 {
            s.apply_event(InputEvent::ControlKey);
        }
        for _ in 0..5 {
            s.frame_update(1920, 1080);
            assert!(s.camera.zoom >= 10_000 && s.camera.zoom <= 100_000_000);
            assert!(s.flashlight.radius >= 30 * SCALE && s.flashlight.radius <= 1000 * SCALE);
        }
    }
}

#[test]
fn zoom_saturates_at_both_ends() {
    let mut s = OverlayState::new();
    s.apply_event(InputEvent::Scroll { delta: px(100_000) });
    for _ in 0..200 {
        s.frame_update(800, 600);
    }
    assert_eq!(s.camera.zoom, 100_000_000);
    s.apply_event(InputEvent::ResetKey);
    s.apply_event(InputEvent::Scroll { delta: -px(100_000) });
    for _ in 0..200 {
        s.frame_update(800, 600);
    }
    assert_eq!(s.camera.zoom, 10_000);
}

#[test]
fn radius_saturates_at_both_ends() {
    let mut s = OverlayState::new();
    s.apply_event(InputEvent::ControlKey);
    s.apply_event(InputEvent::Scroll { delta: px(10_000) });
    for _ in 0..200 {
        s.frame_update(800, 600);
    }
    assert_eq!(s.flashlight.radius, px(1000));
    s.apply_event(InputEvent::Scroll { delta: -px(20_000) });
    for _ in 0..200 {
        s.frame_update(800, 600);
    }
    assert_eq!(s.flashlight.radius, px(30));
}

#[test]
fn reset_is_absolute_and_idempotent() {
    let mut s = OverlayState::new();
    s.apply_event(InputEvent::Scroll { delta: 3 * SCALE });
    s.frame_update(800, 600);
    s.camera.target_x = px(42);
    s.camera.target_y = -px(17);
    let radius_before = s.flashlight.radius;

    assert!(s.apply_event(InputEvent::ResetKey));
    let after_once = s.camera;
    assert_eq!(
        after_once,
        CameraState { target_x: 0, target_y: 0, zoom: SCALE, velocity: 0 }
    );

    assert!(s.apply_event(InputEvent::ResetKey));
    assert_eq!(s.camera, after_once);
    assert_eq!(s.flashlight.radius, radius_before);
}

#[test]
fn wrap_continuity_across_left_edge() {
    // Drag from x = 5 px to the left edge: the cursor teleports to the
    // right edge, the anchor follows it, and the accumulated pan is the
    // plain sum of the raw per-frame displacements.
    let mut s = OverlayState::new();
    s.apply_event(InputEvent::PointerMoved { x: px(5), y: px(300) });
    s.apply_event(InputEvent::LeftPressed);
    assert_eq!(s.cursor.anchor, Some(Vec2 { x: px(5), y: px(300) }));

    s.apply_event(InputEvent::PointerMoved { x: 0, y: px(300) });
    let out = s.frame_update(800, 600);
    // Displacement 0 - 5 = -5 px entered the pan.
    assert_eq!(s.camera.target_x, -px(5));
    // The cursor wrapped from the left edge to the right edge and the
    // drag re-anchored there.
    assert_eq!(s.cursor.x, px(800));
    assert_eq!(s.cursor.anchor, Some(Vec2 { x: px(800), y: px(300) }));
    assert_eq!(out.cursor_warp, Some(Vec2 { x: px(800), y: px(300) }));

    // Keep dragging left from the wrapped anchor.
    s.apply_event(InputEvent::PointerMoved { x: px(795), y: px(300) });
    s.frame_update(800, 600);
    assert_eq!(s.camera.target_x, -px(10));
    assert_eq!(s.cursor.x, px(795));
    assert_eq!(s.camera.target_y, 0);
}

#[test]
fn wrap_continuity_across_right_edge() {
    // Drag rightward across x = window_width: anchor 795 -> 799 (+4),
    // teleport to x = 1, then 1 -> 6 (+5): the pan is the plain sum +9.
    let mut s = OverlayState::new();
    s.apply_event(InputEvent::PointerMoved { x: px(795), y: px(300) });
    s.apply_event(InputEvent::LeftPressed);
    s.apply_event(InputEvent::PointerMoved { x: px(799), y: px(300) });
    s.frame_update(800, 600);
    assert_eq!(s.camera.target_x, px(4));
    assert_eq!(s.cursor.x, SCALE);
    assert_eq!(s.cursor.anchor, Some(Vec2 { x: SCALE, y: px(300) }));
    s.apply_event(InputEvent::PointerMoved { x: px(6), y: px(300) });
    s.frame_update(800, 600);
    assert_eq!(s.camera.target_x, px(9));
}

#[test]
fn fractional_scroll_lines_accumulate() {
    // Half a line: velocity gains 0.01 * 0.5 = 0.005.
    let mut s = OverlayState::new();
    s.apply_event(InputEvent::Scroll { delta: SCALE / 2 });
    assert_eq!(s.camera.velocity, 5_000);
}

#[test]
fn absurd_pointer_coordinates_are_clamped() {
    let mut s = OverlayState::new();
    s.apply_event(InputEvent::PointerMoved { x: i64::MAX, y: i64::MIN });
    assert_eq!(s.cursor.x, px(1_000_000));
    assert_eq!(s.cursor.y, -px(1_000_000));
}

#[test]
fn wrap_edges_in_priority_order() {
    let mut s = OverlayState::new();
    // Near the right edge: x + 1 >= sw teleports to x = 1.
    s.apply_event(InputEvent::PointerMoved { x: px(799), y: px(300) });
    s.apply_event(InputEvent::LeftPressed);
    s.frame_update(800, 600);
    assert_eq!(s.cursor.x, SCALE);
    assert_eq!(s.cursor.y, px(300));

    // On the bottom edge: y == 0 teleports to y = sh.
    s.apply_event(InputEvent::PointerMoved { x: px(400), y: 0 });
    s.frame_update(800, 600);
    assert_eq!(s.cursor.x, px(400));
    assert_eq!(s.cursor.y, px(600));

    // Near the top edge: y + 1 >= sh teleports to y = 0.
    s.apply_event(InputEvent::PointerMoved { x: px(400), y: px(599) });
    s.frame_update(800, 600);
    assert_eq!(s.cursor.x, px(400));
    assert_eq!(s.cursor.y, 0);

    // Interior positions are untouched.
    s.apply_event(InputEvent::PointerMoved { x: px(123), y: px(45) });
    s.frame_update(800, 600);
    assert_eq!(s.cursor.x, px(123));
    assert_eq!(s.cursor.y, px(45));
}

#[test]
fn wrap_corrective_pass_keeps_cursor_off_left_edge_of_empty_window() {
    // With a zero-width window the left-edge branch maps x == 0 to
    // sw == 0; the final corrective pass applies and leaves 0 only
    // because sw itself is 0. The math degrades gracefully.
    let mut s = OverlayState::new();
    s.apply_event(InputEvent::PointerMoved { x: 0, y: px(10) });
    s.apply_event(InputEvent::LeftPressed);
    s.frame_update(0, 600);
    assert_eq!(s.cursor.x, 0);
}

#[test]
fn damping_reaches_zero_from_unit_start() {
    // From a unit velocity, 95/100 damping is below one micro-unit
    // within 270 frames, and 9/10 damping within 135.
    let mut s = OverlayState::new();
    s.camera.velocity = SCALE;
    s.flashlight.radius_velocity = SCALE;
    let mut radius_zero_frame: Option<usize> = None;
    let mut zoom_zero_frame: Option<usize> = None;
    for i in 0..270 {
        s.frame_update(800, 600);
        assert!(s.camera.velocity.abs() <= SCALE);
        if s.flashlight.radius_velocity == 0 && radius_zero_frame.is_none() {
            radius_zero_frame = Some(i);
        }
        if s.camera.velocity == 0 && zoom_zero_frame.is_none() {
            zoom_zero_frame = Some(i);
        }
    }
    assert_eq!(s.camera.velocity, 0);
    assert_eq!(s.flashlight.radius_velocity, 0);
    assert!(radius_zero_frame.unwrap() < 135);
    assert!(zoom_zero_frame.unwrap() < 270);
    // The decay is not instantaneous: both velocities survived the
    // first frame.
    assert!(zoom_zero_frame.unwrap() > 0);
    assert!(radius_zero_frame.unwrap() > 0);
}

#[test]
fn projection_extents_at_unit_zoom() {
    let mut s = OverlayState::new();
    let out = s.frame_update(800, 600);
    assert_eq!(out.params.left, 0);
    assert_eq!(out.params.right, px(800));
    assert_eq!(out.params.bottom, 0);
    assert_eq!(out.params.top, px(600));
    assert_eq!(out.params.cursor_x, 0);
    assert_eq!(out.params.cursor_y, 0);
    assert!(!out.params.flashlight_enabled);
    assert_eq!(out.params.flashlight_radius, px(130));
    assert_eq!(out.cursor_warp, None);
}

#[test]
fn projection_extents_at_double_zoom_with_pan() {
    // zoom = 2, target = (100, -40), window 800x600:
    // left  = 400 - 400/2 - 100/2 = 150,  right = 400 + 400/2 - 100/2 = 550
    // bottom = 300 - 300/2 + (-40)/2 = 130, top = 300 + 300/2 - 20 = 430
    let mut s = OverlayState::new();
    s.camera.zoom = 2 * SCALE;
    s.camera.target_x = px(100);
    s.camera.target_y = -px(40);
    let out = s.frame_update(800, 600);
    assert_eq!(out.params.left, px(150));
    assert_eq!(out.params.right, px(550));
    assert_eq!(out.params.bottom, px(130));
    assert_eq!(out.params.top, px(430));
}

#[test]
fn flashlight_toggle_roundtrip() {
    let mut s = OverlayState::new();
    assert!(s.apply_event(InputEvent::FlashlightKey));
    assert!(s.flashlight.enabled);
    s.frame_update(800, 600);
    assert!(s.apply_event(InputEvent::FlashlightKey));
    assert!(!s.flashlight.enabled);
    assert_eq!(s.flashlight.radius, px(130));
}

#[test]
fn control_scroll_kicks_radius_velocity() {
    // With the control flag toggled on, one scroll-up line adds
    // 0.01 * 1 * 200 = 2.0 to the radius velocity; the next frame damps
    // it to 1.8 and grows the radius from 130 to 131.8.
    let mut s = OverlayState::new();
    s.apply_event(InputEvent::ControlKey);
    assert!(s.ctrl_held);
    s.apply_event(InputEvent::Scroll { delta: SCALE });
    assert_eq!(s.flashlight.radius_velocity, 2 * SCALE);
    assert_eq!(s.camera.velocity, 0);
    s.frame_update(800, 600);
    assert_eq!(s.flashlight.radius_velocity, 1_800_000);
    assert_eq!(s.flashlight.radius, 131_800_000);
    // Any further control-key transition (press or release alike)
    // toggles the flag back: the next scroll zooms.
    s.apply_event(InputEvent::ControlKey);
    assert!(!s.ctrl_held);
    s.apply_event(InputEvent::Scroll { delta: SCALE });
    assert_eq!(s.camera.velocity, 10_000);
}

#[test]
fn event_consumption_matches_translation() {
    let mut s = OverlayState::new();
    assert!(s.apply_event(InputEvent::PointerMoved { x: px(1), y: px(2) }));
    assert!(s.apply_event(InputEvent::LeftPressed));
    assert!(s.apply_event(InputEvent::LeftReleased));
    assert!(s.apply_event(InputEvent::Scroll { delta: 0 }));
    assert!(s.apply_event(InputEvent::ControlKey));
    assert!(s.apply_event(InputEvent::FlashlightKey));
    assert!(s.apply_event(InputEvent::ResetKey));
    assert!(!s.apply_event(InputEvent::Other));
}

#[test]
fn drag_anchor_follows_press_and_release() {
    let mut s = OverlayState::new();
    s.apply_event(InputEvent::PointerMoved { x: px(10), y: px(20) });
    assert_eq!(s.cursor.anchor, None);
    s.apply_event(InputEvent::LeftPressed);
    assert_eq!(s.cursor.anchor, Some(Vec2 { x: px(10), y: px(20) }));
    s.apply_event(InputEvent::LeftReleased);
    assert_eq!(s.cursor.anchor, None);
    // Without a drag the frame step neither pans nor warps.
    s.apply_event(InputEvent::PointerMoved { x: px(300), y: px(200) });
    let out = s.frame_update(800, 600);
    assert_eq!(s.camera.target_x, 0);
    assert_eq!(out.cursor_warp, None);
}
