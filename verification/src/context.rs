//! The GPU resource and state machine of the renderer.
//!
//! The context owns the negotiated handles (surface, device, queue,
//! pipeline, buffers and binding sets — opaque identities here), the
//! current surface configuration and the camera uniform. Resizing only
//! rewrites the stored configuration, never the handles; a zero-sized
//! resize is ignored outright. Preparing a frame regenerates the uniform
//! and hands back a plain description of the one render pass to record.

use vstd::prelude::*;
use crate::camera::{forward_x, forward_y, forward_z, Camera, TrigSamples};
use crate::matrix::{
    side_x_raw, side_z_raw, spec_view_proj, CameraUniform, ASPECT_MIN, TAN_HALF_MAX, TAN_HALF_MIN,
};

verus! {

/// Pixel format of a drawable surface.
#[derive(Clone, Copy, Debug, PartialEq, Eq, Structural)]
pub enum TextureFormat {
    Bgra8Unorm,
    Bgra8UnormSrgb,
    Rgba8Unorm,
    Rgba8UnormSrgb,
}

/// Whether a format stores gamma-corrected values.
pub open spec fn spec_is_srgb(f: TextureFormat) -> bool {
    f == TextureFormat::Bgra8UnormSrgb || f == TextureFormat::Rgba8UnormSrgb
}

impl TextureFormat {
    /// Whether this format stores gamma-corrected values.
    pub fn is_srgb(&self) -> (r: bool)
        ensures
            r == spec_is_srgb(*self),
    {
        match self {
            TextureFormat::Bgra8UnormSrgb => true,
            TextureFormat::Rgba8UnormSrgb => true,
            _ => false,
        }
    }
}

/// How presentation is paced.
#[derive(Clone, Copy, Debug, PartialEq, Eq, Structural)]
pub enum PresentMode {
    Fifo,
    Immediate,
    Mailbox,
}

/// The negotiated pixel format, size and presentation mode of the surface.
#[derive(Clone, Copy, Debug, PartialEq, Eq, Structural)]
pub struct SurfaceConfig {
    pub format: TextureFormat,
    pub width: u32,
    pub height: u32,
    pub present_mode: PresentMode,
}

/// Opaque identities of the negotiated GPU objects.
#[derive(Clone, Copy, Debug, PartialEq, Eq, Structural)]
pub struct GpuHandles {
    pub surface: u64,
    pub device: u64,
    pub queue: u64,
    pub pipeline: u64,
    pub vertex_buffer: u64,
    pub index_buffer: u64,
    pub instance_buffer: u64,
    pub uniform_buffer: u64,
    pub texture_bind_set: u64,
    pub camera_bind_set: u64,
}

/// Why acquiring the next drawable image failed.
#[derive(Clone, Copy, Debug, PartialEq, Eq, Structural)]
pub enum AcquireError {
    /// No image became available in time.
    Timeout,
    /// The surface no longer matches its configuration.
    Outdated,
    /// The surface was lost and must be reconfigured.
    Lost,
    /// The device is out of memory.
    OutOfMemory,
}

/// What the frame loop does with a failed acquire.
#[derive(Clone, Copy, Debug, PartialEq, Eq, Structural)]
pub enum FrameAction {
    /// Transient: leave all state intact and try again next redraw.
    SkipFrame,
    /// The environment is broken: surface the error and stop.
    Fatal,
}

/// Classifies a failed acquire: running out of memory is fatal, every
/// other failure is transient and costs only the one frame.
pub fn classify_acquire(e: AcquireError) -> (r: FrameAction)
    ensures
        r == FrameAction::Fatal <==> e == AcquireError::OutOfMemory,
{
    match e {
        AcquireError::OutOfMemory => FrameAction::Fatal,
        _ => FrameAction::SkipFrame,
    }
}

/// Picks the surface format: the first gamma-correct one on offer, and
/// the first offered format when none is.
pub fn choose_format(formats: &Vec<TextureFormat>) -> (r: TextureFormat)
    requires
        formats@.len() > 0,
    ensures
        (exists|i: int| 0 <= i < formats@.len() && spec_is_srgb(formats@[i])) ==> exists|i: int|
            {
                &&& 0 <= i < formats@.len()
                &&& r == formats@[i]
                &&& spec_is_srgb(formats@[i])
                &&& forall|j: int| 0 <= j < i ==> !spec_is_srgb(formats@[j])
            },
        (forall|i: int| 0 <= i < formats@.len() ==> !spec_is_srgb(formats@[i])) ==> r == formats@[
            0],
{
    let mut k: usize = 0;
    while k < formats.len()
        invariant
            0 <= k <= formats@.len(),
            forall|j: int| 0 <= j < k ==> !spec_is_srgb(formats@[j]),
        decreases formats@.len() - k,
    {
        if formats[k].is_srgb() {
            return formats[k];
        }
        k = k + 1;
    }
    formats[0]
}

/// The description of one recorded frame: which objects to bind, what to
/// upload into the uniform buffer, and the one indexed, instanced draw.
#[derive(Clone, Copy, Debug, PartialEq, Eq, Structural)]
pub struct FrameCommands {
    pub pipeline: u64,
    pub texture_bind_set: u64,
    pub camera_bind_set: u64,
    pub vertex_buffer: u64,
    pub instance_buffer: u64,
    pub index_buffer: u64,
    pub uniform_buffer: u64,
    pub uniform: CameraUniform,
    pub index_count: u32,
    pub instance_count: u32,
}

/// The render context: handles, surface configuration, draw extents and
/// the per-frame camera uniform.
#[derive(Clone, Copy, Debug, PartialEq, Eq, Structural)]
pub struct RenderContext {
    pub handles: GpuHandles,
    pub config: SurfaceConfig,
    pub index_count: u32,
    pub instance_count: u32,
    pub uniform: CameraUniform,
}

impl RenderContext {
    /// Builds the context once a live window exists: picks the surface
    /// format from what the surface offers, takes the window's current
    /// nonzero size, paces presentation by vertical sync, and seeds the
    /// uniform from the starting camera.
    pub fn new(
        handles: GpuHandles,
        formats: &Vec<TextureFormat>,
        width: u32,
        height: u32,
        index_count: u32,
        instance_count: u32,
        camera: &Camera,
        t: &TrigSamples,
        tan_half_fovy: i64,
    ) -> (r: RenderContext)
        requires
            formats@.len() > 0,
            width > 0,
            height > 0,
            camera.wf(),
            t.wf(),
            !(forward_x(*t) == 0 && forward_y(*t) == 0 && forward_z(*t) == 0),
            !(side_x_raw(*t) == 0 && side_z_raw(*t) == 0),
            TAN_HALF_MIN <= tan_half_fovy <= TAN_HALF_MAX,
            camera.aspect >= ASPECT_MIN,
            2 * camera.znear <= camera.zfar,
        ensures
            r.handles == handles,
            r.config.width == width,
            r.config.height == height,
            r.config.present_mode == PresentMode::Fifo,
            (exists|i: int| 0 <= i < formats@.len() && spec_is_srgb(formats@[i]))
                ==> spec_is_srgb(r.config.format),
            (forall|i: int| 0 <= i < formats@.len() ==> !spec_is_srgb(formats@[i]))
                ==> r.config.format == formats@[0],
            r.index_count == index_count,
            r.instance_count == instance_count,
            r.uniform.view_proj == spec_view_proj(*camera, *t, tan_half_fovy as int),
    {
        let format = choose_format(formats);
        let uniform = camera.get_uniform(t, tan_half_fovy);
        RenderContext {
            handles,
            config: SurfaceConfig { format, width, height, present_mode: PresentMode::Fifo },
            index_count,
            instance_count,
            uniform,
        }
    }

    /// Applies a window resize: a zero dimension (a minimized window)
    /// changes nothing at all; otherwise only the stored width and height
    /// change — handles, format, pacing, extents and uniform are the same
    /// objects as before.
    pub fn resize(&mut self, width: u32, height: u32)
        ensures
            (width == 0 || height == 0) ==> *final(self) == *old(self),
            (width > 0 && height > 0) ==> *final(self) == (RenderContext {
                config: SurfaceConfig { width, height, ..old(self).config },
                ..*old(self)
            }),
    {
        if width == 0 || height == 0 {
            return ;
        }
        self.config.width = width;
        self.config.height = height;
    }

    /// Prepares one frame: regenerates the camera uniform from the current
    /// pose and returns the pass to record — clear, bind the pipeline and
    /// both binding sets, bind the three buffers, draw every index for
    /// every instance. Everything else in the context stays as it was.
    pub fn prepare_frame(&mut self, camera: &Camera, t: &TrigSamples, tan_half_fovy: i64) -> (r:
        FrameCommands)
        requires
            camera.wf(),
            t.wf(),
            !(forward_x(*t) == 0 && forward_y(*t) == 0 && forward_z(*t) == 0),
            !(side_x_raw(*t) == 0 && side_z_raw(*t) == 0),
            TAN_HALF_MIN <= tan_half_fovy <= TAN_HALF_MAX,
            camera.aspect >= ASPECT_MIN,
            2 * camera.znear <= camera.zfar,
        ensures
            final(self).uniform.view_proj == spec_view_proj(*camera, *t, tan_half_fovy as int),
            final(self).handles == old(self).handles,
            final(self).config == old(self).config,
            final(self).index_count == old(self).index_count,
            final(self).instance_count == old(self).instance_count,
            r.pipeline == old(self).handles.pipeline,
            r.texture_bind_set == old(self).handles.texture_bind_set,
            r.camera_bind_set == old(self).handles.camera_bind_set,
            r.vertex_buffer == old(self).handles.vertex_buffer,
            r.instance_buffer == old(self).handles.instance_buffer,
            r.index_buffer == old(self).handles.index_buffer,
            r.uniform_buffer == old(self).handles.uniform_buffer,
            r.uniform == final(self).uniform,
            r.index_count == old(self).index_count,
            r.instance_count == old(self).instance_count,
    {
        self.uniform = camera.get_uniform(t, tan_half_fovy);
        FrameCommands {
            pipeline: self.handles.pipeline,
            texture_bind_set: self.handles.texture_bind_set,
            camera_bind_set: self.handles.camera_bind_set,
            vertex_buffer: self.handles.vertex_buffer,
            instance_buffer: self.handles.instance_buffer,
            index_buffer: self.handles.index_buffer,
            uniform_buffer: self.handles.uniform_buffer,
            uniform: self.uniform,
            index_count: self.index_count,
            instance_count: self.instance_count,
        }
    }
}

} // verus!
