//! The event-driven application state machine, event by event.

use scene_camera::camera::{Camera, TrigSamples};
use scene_camera::context::{AcquireError, FrameAction, GpuHandles, RenderContext, TextureFormat};
use scene_camera::controller::{CameraController, Direction};
use scene_camera::driver::{map_key, App, KeyCode};
use scene_camera::fixed::SCALE;

fn rest_samples() -> TrigSamples {
    TrigSamples { sin_pitch: 0, cos_pitch: SCALE, sin_yaw: 0, cos_yaw: SCALE }
}

fn tan_half_45() -> i64 {
    414_214
}

fn fresh_app() -> App {
    App::new(Camera::new(16 * SCALE / 9), CameraController::new(100_000, 1_000))
}

fn app_with_context() -> App {
    let mut app = fresh_app();
    let formats = vec![TextureFormat::Bgra8UnormSrgb];
    let ctx = RenderContext::new(
        GpuHandles {
            surface: 1,
            device: 2,
            queue: 3,
            pipeline: 4,
            vertex_buffer: 5,
            index_buffer: 6,
            instance_buffer: 7,
            uniform_buffer: 8,
            texture_bind_set: 9,
            camera_bind_set: 10,
        },
        &formats,
        800,
        600,
        36,
        100,
        &app.camera,
        &rest_samples(),
        tan_half_45(),
    );
    app.install_context(ctx);
    app
}

#[test]
fn keys_map_to_their_directions() {
    assert_eq!(map_key(KeyCode::KeyW), Some(Direction::Forward));
    assert_eq!(map_key(KeyCode::ArrowUp), Some(Direction::Forward));
    assert_eq!(map_key(KeyCode::KeyS), Some(Direction::Backward));
    assert_eq!(map_key(KeyCode::ArrowDown), Some(Direction::Backward));
    assert_eq!(map_key(KeyCode::KeyA), Some(Direction::Left));
    assert_eq!(map_key(KeyCode::ArrowLeft), Some(Direction::Left));
    assert_eq!(map_key(KeyCode::KeyD), Some(Direction::Right));
    assert_eq!(map_key(KeyCode::ArrowRight), Some(Direction::Right));
    assert_eq!(map_key(KeyCode::Other), None);
}

#[test]
fn resume_creates_the_context_once() {
    let mut app = fresh_app();
    assert!(app.needs_context());
    app = app_with_context();
    assert!(!app.needs_context());
}

#[test]
fn key_events_drive_the_flags() {
    let mut app = fresh_app();
    app.on_key_event(KeyCode::KeyW, true);
    assert!(app.controller.forward_pressed);
    app.on_key_event(KeyCode::ArrowRight, true);
    assert!(app.controller.right_pressed);
    app.on_key_event(KeyCode::KeyW, false);
    assert!(!app.controller.forward_pressed);
    // An unrecognized key is a silent no-op.
    let before = app;
    app.on_key_event(KeyCode::Other, true);
    assert_eq!(app, before);
}

#[test]
fn mouse_motion_buffers_until_redraw() {
    let mut app = fresh_app();
    app.on_mouse_motion(10, -3);
    app.on_mouse_motion(5, 8);
    assert_eq!(app.controller.mouse_delta, (15, 5));
    assert_eq!(app.camera.yaw, 0);
}

#[test]
fn zero_sized_resize_is_ignored() {
    let mut app = app_with_context();
    let before = app;
    app.on_resize(0, 1080);
    assert_eq!(app, before);
    app.on_resize(1920, 0);
    assert_eq!(app, before);
}

#[test]
fn resize_updates_surface_and_camera_aspect() {
    let mut app = app_with_context();
    app.on_resize(1920, 1080);
    let ctx = app.context.unwrap();
    assert_eq!(ctx.config.width, 1920);
    assert_eq!(ctx.config.height, 1080);
    // 1920 / 1080, scaled and truncated.
    assert_eq!(app.camera.aspect, 1_777_777);
}

#[test]
fn extreme_window_shapes_clamp_the_aspect() {
    // A window a million times taller than wide would truncate to a zero
    // ratio; the camera's aspect clamps to the smallest positive value.
    let mut app = app_with_context();
    app.on_resize(1, u32::MAX);
    assert_eq!(app.camera.aspect, 1);
    // And an absurdly wide window clamps to the largest accepted ratio.
    app.on_resize(u32::MAX, 1);
    assert_eq!(app.camera.aspect, scene_camera::fixed::FIX_BOUND);
}

#[test]
fn acquire_failures_skip_or_stop() {
    let mut app = app_with_context();
    // Transient: the frame is skipped, nothing changes.
    let before = app;
    assert_eq!(app.on_acquire_failed(AcquireError::Lost), FrameAction::SkipFrame);
    assert_eq!(app, before);
    // Fatal: the loop shuts down instead of swallowing the error.
    assert_eq!(app.on_acquire_failed(AcquireError::OutOfMemory), FrameAction::Fatal);
    assert!(app.exiting);
}

#[test]
fn close_request_sets_exiting() {
    let mut app = fresh_app();
    assert!(!app.exiting);
    app.on_close_requested();
    assert!(app.exiting);
}

#[test]
fn redraw_applies_input_then_rebuilds_uniform() {
    let mut app = app_with_context();
    app.on_key_event(KeyCode::KeyW, true);
    app.on_mouse_motion(100, 0);
    let commands = app.on_redraw_requested(&rest_samples(), tan_half_45());
    // The buffered input went into the camera exactly once.
    assert_eq!(app.camera.position.z, 1_900_000);
    assert_eq!(app.camera.yaw, 100_000);
    assert_eq!(app.controller.mouse_delta, (0, 0));
    // The frame carries the uniform of the camera as it is now.
    let expected = app.camera.get_uniform(&rest_samples(), tan_half_45());
    assert_eq!(commands.uniform, expected);
    assert_eq!(app.context.unwrap().uniform, expected);
    assert_eq!(commands.index_count, 36);
    assert_eq!(commands.instance_count, 100);
    assert_eq!(commands.pipeline, 4);
}
