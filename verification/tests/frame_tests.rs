use mandelbulb_viewer::camera::{Aspect, Displacement};
use mandelbulb_viewer::frame::{after_acquire, AcquireStep, Event, Reaction, Viewer, QUAD_VERTICES};
use mandelbulb_viewer::input::{Point, PointerButton, ScrollDelta};
use mandelbulb_viewer::keys::Key;
use mandelbulb_viewer::surface::{Extent, FullscreenChange, PresentMode};

fn ext(width: u32, height: u32) -> Extent {
    Extent { width, height }
}

fn viewer() -> Viewer<u8> {
    Viewer::new(ext(800, 600), 3u8, PresentMode::Fifo).unwrap()
}

fn units(micro: i64) -> f32 {
    micro as f32 / 1_000_000.0
}

#[test]
fn new_viewer_starts_at_rest() {
    let mut v = viewer();
    assert_eq!(v.camera().yaw(), 0);
    assert_eq!(v.camera().pitch(), 0);
    assert_eq!(v.camera().aspect(), Aspect { width: 800, height: 600 });
    assert_eq!(v.input().held_count(), 0);
    assert_eq!(v.surface().size(), ext(800, 600));
    assert_eq!(*v.surface().format(), 3u8);
    assert!(!v.surface().is_fullscreen());
    let f = v.tick();
    assert_eq!(f.travel, Displacement { forward: 0, right: 0, up: 0 });
    assert_eq!(f.dolly, 0);
    assert_eq!(f.resolution, ext(800, 600));
}

#[test]
fn new_viewer_needs_a_usable_size() {
    assert!(Viewer::new(ext(0, 600), 3u8, PresentMode::Fifo).is_none());
    assert!(Viewer::new(ext(800, 0), 3u8, PresentMode::Fifo).is_none());
}

#[test]
fn forward_key_held_for_three_ticks() {
    let mut v = viewer();
    assert_eq!(v.handle(Event::KeyDown(Key::W)), Reaction::Continue);
    let forward = [1.0f32, 0.0, 0.0];
    let mut position = [0.0f32, 0.0, 4.0];
    let mut total: i64 = 0;
    let mut tick = 0;
    while tick < 3 {
        let f = v.tick();
        assert_eq!(f.travel, Displacement { forward: 50_000, right: 0, up: 0 });
        assert_eq!(f.dolly, 0);
        total += f.travel.forward as i64;
        for axis in 0..3 {
            position[axis] += forward[axis] * units(f.travel.forward as i64);
        }
        tick += 1;
    }
    assert_eq!(total, 150_000);
    assert!((position[0] - 0.15).abs() < 1e-6);
    assert_eq!(position[1], 0.0);
    assert_eq!(position[2], 4.0);
    assert_eq!(v.handle(Event::KeyUp(Key::W)), Reaction::Continue);
    assert_eq!(v.tick().travel, Displacement { forward: 0, right: 0, up: 0 });
}

#[test]
fn one_line_of_scroll_dollies_half_a_unit() {
    let mut v = viewer();
    assert_eq!(v.handle(Event::Scroll(ScrollDelta::Lines(1000))), Reaction::Continue);
    let f = v.tick();
    assert_eq!(f.dolly, 500_000);
    let forward = [1.0f32, 0.0, 0.0];
    let position = [
        0.0f32 + forward[0] * units(f.dolly),
        0.0f32 + forward[1] * units(f.dolly),
        4.0f32 + forward[2] * units(f.dolly),
    ];
    assert_eq!(position, [0.5, 0.0, 4.0]);
    assert_eq!(v.tick().dolly, 0);
}

#[test]
fn pixel_scroll_counts_a_tenth() {
    let mut v = viewer();
    v.handle(Event::Scroll(ScrollDelta::Pixels(10)));
    assert_eq!(v.tick().dolly, 500_000);
    v.handle(Event::Scroll(ScrollDelta::Pixels(-3)));
    v.handle(Event::Scroll(ScrollDelta::Lines(100)));
    assert_eq!(v.tick().dolly, -100_000);
}

#[test]
fn drag_from_100_100_to_120_90() {
    let mut v = viewer();
    v.handle(Event::PointerMoved(Point { x: 100, y: 100 }));
    v.handle(Event::Button(PointerButton::Left, true));
    assert_eq!(v.handle(Event::PointerMoved(Point { x: 120, y: 90 })), Reaction::Continue);
    assert_eq!(v.camera().yaw(), 100);
    assert_eq!(v.camera().pitch(), 50);
    let f = v.tick();
    assert_eq!(f.yaw, 100);
    assert_eq!(f.pitch, 50);
    assert!((f.yaw as f32 / 1000.0 - 0.1).abs() < 1e-6);
    assert!((f.pitch as f32 / 1000.0 - 0.05).abs() < 1e-6);
}

#[test]
fn pointer_moves_without_drag_do_not_turn() {
    let mut v = viewer();
    v.handle(Event::PointerMoved(Point { x: 100, y: 100 }));
    v.handle(Event::PointerMoved(Point { x: 500, y: 300 }));
    assert_eq!(v.camera().yaw(), 0);
    assert_eq!(v.camera().pitch(), 0);
    v.handle(Event::Button(PointerButton::Left, true));
    v.handle(Event::Button(PointerButton::Left, false));
    v.handle(Event::PointerMoved(Point { x: 0, y: 0 }));
    assert_eq!(v.camera().yaw(), 0);
    assert_eq!(v.camera().pitch(), 0);
}

#[test]
fn long_drag_keeps_pitch_clamped() {
    let mut v = viewer();
    v.handle(Event::PointerMoved(Point { x: 0, y: 0 }));
    v.handle(Event::Button(PointerButton::Left, true));
    v.handle(Event::PointerMoved(Point { x: 0, y: -100_000 }));
    assert_eq!(v.camera().pitch(), 1500);
    v.handle(Event::PointerMoved(Point { x: 0, y: i32::MAX }));
    assert_eq!(v.camera().pitch(), -1500);
    v.handle(Event::PointerMoved(Point { x: 7, y: i32::MAX - 10 }));
    assert_eq!(v.camera().pitch(), -1450);
    assert_eq!(v.camera().yaw(), 35);
}

#[test]
fn resize_reconfigures_and_updates_aspect() {
    let mut v = viewer();
    assert_eq!(v.handle(Event::Resized(ext(1280, 720))), Reaction::Reconfigure);
    assert_eq!(v.surface().size(), ext(1280, 720));
    assert_eq!(v.camera().aspect(), Aspect { width: 1280, height: 720 });
    let f = v.tick();
    assert_eq!(f.aspect, Aspect { width: 1280, height: 720 });
    assert_eq!(f.resolution, ext(1280, 720));
    assert_eq!(f.aspect.width as f32 / f.aspect.height as f32, 1280.0f32 / 720.0f32);
}

#[test]
fn resize_to_zero_changes_nothing() {
    let mut v = viewer();
    assert_eq!(v.handle(Event::Resized(ext(0, 720))), Reaction::Continue);
    assert_eq!(v.handle(Event::Resized(ext(1280, 0))), Reaction::Continue);
    assert_eq!(v.surface().size(), ext(800, 600));
    assert_eq!(v.camera().aspect(), Aspect { width: 800, height: 600 });
}

#[test]
fn escape_and_close_exit() {
    let mut v = viewer();
    assert_eq!(v.handle(Event::KeyDown(Key::Escape)), Reaction::Exit);
    assert_eq!(v.handle(Event::CloseRequested), Reaction::Exit);
    assert_eq!(v.handle(Event::KeyUp(Key::Escape)), Reaction::Continue);
}

#[test]
fn f11_asks_for_fullscreen_toggle() {
    let mut v = viewer();
    assert_eq!(v.handle(Event::KeyDown(Key::F11)), Reaction::ToggleFullscreen);
    assert!(v.input().is_held(Key::F11));
    assert!(!v.surface().is_fullscreen());
    assert_eq!(v.handle(Event::KeyUp(Key::F11)), Reaction::Continue);
    assert!(!v.input().is_held(Key::F11));
}

#[test]
fn fullscreen_on_then_off_restores_surface_and_aspect() {
    let mut v = viewer();
    let modes = vec![ext(1920, 1080)];
    assert_eq!(v.toggle_fullscreen(&modes, Some(ext(1920, 1080))), FullscreenChange::Exclusive(0));
    assert!(v.surface().is_fullscreen());
    assert_eq!(v.surface().size(), ext(1920, 1080));
    assert_eq!(v.camera().aspect(), Aspect { width: 1920, height: 1080 });
    assert_eq!(v.toggle_fullscreen(&modes, Some(ext(1920, 1080))), FullscreenChange::Windowed);
    assert!(!v.surface().is_fullscreen());
    assert_eq!(v.surface().size(), ext(800, 600));
    assert_eq!(v.surface().aspect(), Aspect { width: 800, height: 600 });
    assert_eq!(v.camera().aspect(), Aspect { width: 800, height: 600 });
    assert_eq!(*v.surface().format(), 3u8);
    assert_eq!(v.surface().present_mode(), PresentMode::Fifo);
}

#[test]
fn fullscreen_without_monitor_information_keeps_size() {
    let mut v = viewer();
    assert_eq!(v.toggle_fullscreen(&vec![], None), FullscreenChange::Borderless);
    assert!(v.surface().is_fullscreen());
    assert_eq!(v.surface().size(), ext(800, 600));
    assert_eq!(v.handle(Event::Resized(ext(1366, 768))), Reaction::Reconfigure);
    assert_eq!(v.camera().aspect(), Aspect { width: 1366, height: 768 });
    assert_eq!(v.toggle_fullscreen(&vec![], None), FullscreenChange::Windowed);
    assert_eq!(v.surface().size(), ext(800, 600));
    assert_eq!(v.camera().aspect(), Aspect { width: 800, height: 600 });
}

#[test]
fn tick_reports_keys_scroll_and_orientation_together() {
    let mut v = viewer();
    v.handle(Event::KeyDown(Key::S));
    v.handle(Event::KeyDown(Key::D));
    v.handle(Event::KeyDown(Key::Space));
    v.handle(Event::KeyDown(Key::Other(5)));
    v.handle(Event::Scroll(ScrollDelta::Lines(-2000)));
    v.handle(Event::PointerMoved(Point { x: 10, y: 10 }));
    v.handle(Event::Button(PointerButton::Left, true));
    v.handle(Event::PointerMoved(Point { x: 0, y: 20 }));
    let f = v.tick();
    assert_eq!(f.travel, Displacement { forward: -50_000, right: 50_000, up: 50_000 });
    assert_eq!(f.dolly, -1_000_000);
    assert_eq!(f.yaw, -50);
    assert_eq!(f.pitch, -50);
    let g = v.tick();
    assert_eq!(g.travel, f.travel);
    assert_eq!(g.dolly, 0);
    assert_eq!(g.yaw, -50);
}

#[test]
fn acquire_draws_on_success() {
    assert_eq!(after_acquire(0, true), AcquireStep::Draw);
    assert_eq!(after_acquire(1, true), AcquireStep::Draw);
    assert_eq!(after_acquire(u32::MAX, true), AcquireStep::Draw);
}

#[test]
fn acquire_retries_once_then_aborts() {
    assert_eq!(after_acquire(0, false), AcquireStep::ReconfigureAndRetry);
    assert_eq!(after_acquire(1, false), AcquireStep::Abort);
    assert_eq!(after_acquire(2, false), AcquireStep::Abort);
}

#[test]
fn a_frame_draws_six_vertices() {
    assert_eq!(QUAD_VERTICES, 6);
}
