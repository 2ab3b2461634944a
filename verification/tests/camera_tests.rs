use mandelbulb_viewer::camera::{
    dolly_for, travel_for, Aspect, Camera, Displacement, MOVE_SPEED, PITCH_LIMIT, SENSITIVITY,
    ZOOM_SPEED,
};
use mandelbulb_viewer::input::InputState;
use mandelbulb_viewer::keys::Key;

fn camera() -> Camera {
    Camera::new(800, 600).unwrap()
}

#[test]
fn constants_match_the_controls() {
    assert_eq!(SENSITIVITY, 5);
    assert_eq!(PITCH_LIMIT, 1500);
    assert_eq!(MOVE_SPEED, 50_000);
    assert_eq!(ZOOM_SPEED, 500);
}

#[test]
fn new_camera_looks_along_yaw_and_pitch_zero() {
    let c = camera();
    assert_eq!(c.yaw(), 0);
    assert_eq!(c.pitch(), 0);
    assert_eq!(c.aspect(), Aspect { width: 800, height: 600 });
}

#[test]
fn new_camera_needs_a_usable_size() {
    assert!(Camera::new(0, 600).is_none());
    assert!(Camera::new(800, 0).is_none());
    assert!(Camera::new(0, 0).is_none());
    assert!(Camera::new(1, 1).is_some());
}

#[test]
fn drag_turns_by_sensitivity() {
    let mut c = camera();
    c.apply_drag(20, -10);
    assert_eq!(c.yaw(), 100);
    assert_eq!(c.pitch(), 50);
    c.apply_drag(-40, 30);
    assert_eq!(c.yaw(), -100);
    assert_eq!(c.pitch(), -100);
}

#[test]
fn pitch_is_clamped_upwards() {
    let mut c = camera();
    c.apply_drag(0, -299);
    assert_eq!(c.pitch(), 1495);
    c.apply_drag(0, -1);
    assert_eq!(c.pitch(), 1500);
    c.apply_drag(0, -1);
    assert_eq!(c.pitch(), 1500);
    c.apply_drag(0, 1);
    assert_eq!(c.pitch(), 1495);
}

#[test]
fn pitch_is_clamped_downwards() {
    let mut c = camera();
    c.apply_drag(0, 301);
    assert_eq!(c.pitch(), -1500);
    c.apply_drag(0, i64::MAX);
    assert_eq!(c.pitch(), -1500);
    c.apply_drag(0, i64::MIN);
    assert_eq!(c.pitch(), 1500);
}

#[test]
fn pitch_stays_in_range_over_many_drags() {
    let mut c = camera();
    let mut dy: i64 = 1;
    let mut n = 0;
    while n < 200 {
        c.apply_drag(n, dy);
        assert!(c.pitch() >= -1500 && c.pitch() <= 1500);
        dy = -dy * 3 + 7;
        if dy > 1_000_000 || dy < -1_000_000 {
            dy = 11;
        }
        n += 1;
    }
}

#[test]
fn yaw_is_not_clamped_but_saturates() {
    let mut c = camera();
    c.apply_drag(2_000_000, 0);
    assert_eq!(c.yaw(), 10_000_000);
    c.apply_drag(i64::MAX, 0);
    assert_eq!(c.yaw(), i64::MAX);
    c.apply_drag(1, 0);
    assert_eq!(c.yaw(), i64::MAX);
    c.apply_drag(-1, 0);
    assert_eq!(c.yaw(), i64::MAX - 5);
    c.apply_drag(i64::MIN, 0);
    c.apply_drag(i64::MIN, 0);
    assert_eq!(c.yaw(), i64::MIN);
}

#[test]
fn drag_leaves_aspect_alone() {
    let mut c = camera();
    c.apply_drag(3, 4);
    assert_eq!(c.aspect(), Aspect { width: 800, height: 600 });
}

#[test]
fn set_aspect_takes_width_and_height() {
    let mut c = camera();
    assert!(c.set_aspect(1920, 1080));
    assert_eq!(c.aspect(), Aspect { width: 1920, height: 1080 });
    assert_eq!(c.yaw(), 0);
    assert_eq!(c.pitch(), 0);
}

#[test]
fn set_aspect_refuses_zero() {
    let mut c = camera();
    assert!(!c.set_aspect(0, 1080));
    assert!(!c.set_aspect(1920, 0));
    assert_eq!(c.aspect(), Aspect { width: 800, height: 600 });
}

#[test]
fn no_keys_no_travel() {
    let s = InputState::new();
    assert_eq!(travel_for(&s), Displacement { forward: 0, right: 0, up: 0 });
}

#[test]
fn each_key_moves_along_its_axis() {
    let cases = [
        (Key::W, Displacement { forward: 50_000, right: 0, up: 0 }),
        (Key::S, Displacement { forward: -50_000, right: 0, up: 0 }),
        (Key::D, Displacement { forward: 0, right: 50_000, up: 0 }),
        (Key::A, Displacement { forward: 0, right: -50_000, up: 0 }),
        (Key::E, Displacement { forward: 0, right: 0, up: 50_000 }),
        (Key::Space, Displacement { forward: 0, right: 0, up: 50_000 }),
        (Key::Q, Displacement { forward: 0, right: 0, up: -50_000 }),
        (Key::Shift, Displacement { forward: 0, right: 0, up: -50_000 }),
    ];
    for (key, want) in cases {
        let mut s = InputState::new();
        s.press(key);
        assert_eq!(travel_for(&s), want);
    }
}

#[test]
fn opposite_keys_cancel() {
    let mut s = InputState::new();
    s.press(Key::W);
    s.press(Key::S);
    s.press(Key::A);
    s.press(Key::D);
    s.press(Key::Q);
    s.press(Key::E);
    assert_eq!(travel_for(&s), Displacement { forward: 0, right: 0, up: 0 });
}

#[test]
fn each_held_key_adds_its_own_step() {
    let mut s = InputState::new();
    s.press(Key::E);
    s.press(Key::Space);
    s.press(Key::W);
    s.press(Key::D);
    assert_eq!(travel_for(&s), Displacement { forward: 50_000, right: 50_000, up: 100_000 });
    s.release(Key::E);
    s.press(Key::Shift);
    s.press(Key::Q);
    assert_eq!(travel_for(&s), Displacement { forward: 50_000, right: 50_000, up: -50_000 });
}

#[test]
fn unrecognized_keys_are_ignored() {
    let mut s = InputState::new();
    s.press(Key::Other(99));
    s.press(Key::Escape);
    s.press(Key::F11);
    assert_eq!(travel_for(&s), Displacement { forward: 0, right: 0, up: 0 });
    s.press(Key::W);
    assert_eq!(travel_for(&s), Displacement { forward: 50_000, right: 0, up: 0 });
}

#[test]
fn dolly_scales_scroll_by_zoom_speed() {
    assert_eq!(dolly_for(0), 0);
    assert_eq!(dolly_for(1000), 500_000);
    assert_eq!(dolly_for(-1000), -500_000);
    assert_eq!(dolly_for(1), 500);
    assert_eq!(dolly_for(100), 50_000);
}

#[test]
fn dolly_saturates() {
    assert_eq!(dolly_for(i64::MAX), i64::MAX);
    assert_eq!(dolly_for(i64::MIN), i64::MIN);
    assert_eq!(dolly_for(i64::MAX / 500), (i64::MAX / 500) * 500);
    assert_eq!(dolly_for(i64::MAX / 500 + 1), i64::MAX);
}
