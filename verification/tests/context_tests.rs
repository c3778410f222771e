//! Render-context lifecycle: format choice, resize rules, frame
//! preparation and acquire classification.

use scene_camera::camera::{Camera, TrigSamples};
use scene_camera::context::{
    choose_format, classify_acquire, AcquireError, FrameAction, GpuHandles, PresentMode,
    RenderContext, TextureFormat,
};
use scene_camera::fixed::SCALE;

fn rest_samples() -> TrigSamples {
    TrigSamples { sin_pitch: 0, cos_pitch: SCALE, sin_yaw: 0, cos_yaw: SCALE }
}

fn tan_half_45() -> i64 {
    414_214
}

fn handles() -> GpuHandles {
    GpuHandles {
        surface: 1,
        device: 2,
        queue: 3,
        pipeline: 4,
        vertex_buffer: 5,
        index_buffer: 6,
        instance_buffer: 7,
        uniform_buffer: 8,
        texture_bind_set: 9,
        camera_bind_set: 10,
    }
}

fn context_800_600() -> (RenderContext, Camera) {
    let camera = Camera::new(16 * SCALE / 9);
    let formats = vec![TextureFormat::Bgra8Unorm, TextureFormat::Bgra8UnormSrgb];
    let ctx = RenderContext::new(
        handles(),
        &formats,
        800,
        600,
        36,
        100,
        &camera,
        &rest_samples(),
        tan_half_45(),
    );
    (ctx, camera)
}

#[test]
fn format_choice_prefers_first_srgb() {
    let formats = vec![
        TextureFormat::Bgra8Unorm,
        TextureFormat::Rgba8UnormSrgb,
        TextureFormat::Bgra8UnormSrgb,
    ];
    assert_eq!(choose_format(&formats), TextureFormat::Rgba8UnormSrgb);
}

#[test]
fn format_choice_falls_back_to_first() {
    let formats = vec![TextureFormat::Rgba8Unorm, TextureFormat::Bgra8Unorm];
    assert_eq!(choose_format(&formats), TextureFormat::Rgba8Unorm);
}

#[test]
fn new_context_takes_window_size_and_vsync() {
    let (ctx, _) = context_800_600();
    assert_eq!(ctx.config.width, 800);
    assert_eq!(ctx.config.height, 600);
    assert_eq!(ctx.config.format, TextureFormat::Bgra8UnormSrgb);
    assert_eq!(ctx.config.present_mode, PresentMode::Fifo);
    assert_eq!(ctx.index_count, 36);
    assert_eq!(ctx.instance_count, 100);
}

#[test]
fn zero_sized_resize_changes_nothing() {
    // A minimized window reports a zero dimension; the stored surface
    // configuration must not move.
    let (mut ctx, _) = context_800_600();
    let before = ctx;
    ctx.resize(0, 600);
    assert_eq!(ctx, before);
    ctx.resize(800, 0);
    assert_eq!(ctx, before);
    ctx.resize(0, 0);
    assert_eq!(ctx, before);
}

#[test]
fn resize_updates_only_width_and_height() {
    // 800x600 to 1920x1080: width and height move, every other part of
    // the context — handles, format, pacing, extents, uniform — is the
    // same object as before.
    let (mut ctx, _) = context_800_600();
    let before = ctx;
    ctx.resize(1920, 1080);
    assert_eq!(ctx.config.width, 1920);
    assert_eq!(ctx.config.height, 1080);
    assert_eq!(ctx.config.format, before.config.format);
    assert_eq!(ctx.config.present_mode, before.config.present_mode);
    assert_eq!(ctx.handles, before.handles);
    assert_eq!(ctx.index_count, before.index_count);
    assert_eq!(ctx.instance_count, before.instance_count);
    assert_eq!(ctx.uniform, before.uniform);
}

#[test]
fn prepare_frame_regenerates_uniform_and_binds_everything() {
    let (mut ctx, mut camera) = context_800_600();
    // Move the camera: the next frame must carry the new uniform.
    camera.position.z = SCALE;
    let commands = ctx.prepare_frame(&camera, &rest_samples(), tan_half_45());
    let expected = camera.get_uniform(&rest_samples(), tan_half_45());
    assert_eq!(ctx.uniform, expected);
    assert_eq!(commands.uniform, expected);
    assert_eq!(commands.pipeline, 4);
    assert_eq!(commands.vertex_buffer, 5);
    assert_eq!(commands.index_buffer, 6);
    assert_eq!(commands.instance_buffer, 7);
    assert_eq!(commands.uniform_buffer, 8);
    assert_eq!(commands.texture_bind_set, 9);
    assert_eq!(commands.camera_bind_set, 10);
    assert_eq!(commands.index_count, 36);
    assert_eq!(commands.instance_count, 100);
}

#[test]
fn acquire_failures_classify_as_designed() {
    // Transient surface trouble skips the frame; only running out of
    // memory is fatal.
    assert_eq!(classify_acquire(AcquireError::Timeout), FrameAction::SkipFrame);
    assert_eq!(classify_acquire(AcquireError::Outdated), FrameAction::SkipFrame);
    assert_eq!(classify_acquire(AcquireError::Lost), FrameAction::SkipFrame);
    assert_eq!(classify_acquire(AcquireError::OutOfMemory), FrameAction::Fatal);
}
