//! The event-driven application state machine.
//!
//! One [`App`] value holds the camera, the controller, the optional render
//! context and the exit flag. Each operating-system event maps to one
//! method here: the method makes every decision and state change, and the
//! surrounding (unverified) event loop only performs what the method
//! decided — create the context on the first resume, record the returned
//! frame, request the next redraw, stop the loop on exit.

use vstd::prelude::*;
use crate::camera::{forward_x, forward_y, forward_z, Camera, TrigSamples, ANGLE_BOUND, POS_BOUND};
use crate::context::{classify_acquire, AcquireError, FrameAction, FrameCommands, RenderContext};
use crate::controller::{move_x, move_y, move_z, CameraController, Direction, SPEED_BOUND};
use crate::fixed::{abs, tdiv, FIX_BOUND, SCALE};
use crate::matrix::{
    side_x_raw, side_z_raw, spec_view_proj, ASPECT_MIN, TAN_HALF_MAX, TAN_HALF_MIN,
};

verus! {

/// The physical keys the viewer reacts to.
#[derive(Clone, Copy, Debug, PartialEq, Eq, Structural)]
pub enum KeyCode {
    KeyW,
    KeyA,
    KeyS,
    KeyD,
    ArrowUp,
    ArrowDown,
    ArrowLeft,
    ArrowRight,
    /// Any key the viewer does not react to.
    Other,
}

/// Which movement a key drives: W and the up arrow go forward, S and the
/// down arrow go backward, A and the left arrow strafe left, D and the
/// right arrow strafe right; everything else is ignored.
pub open spec fn spec_map_key(code: KeyCode) -> Option<Direction> {
    match code {
        KeyCode::KeyW | KeyCode::ArrowUp => Some(Direction::Forward),
        KeyCode::KeyS | KeyCode::ArrowDown => Some(Direction::Backward),
        KeyCode::KeyA | KeyCode::ArrowLeft => Some(Direction::Left),
        KeyCode::KeyD | KeyCode::ArrowRight => Some(Direction::Right),
        KeyCode::Other => None,
    }
}

/// Maps a key to the movement it drives, if any.
pub fn map_key(code: KeyCode) -> (r: Option<Direction>)
    ensures
        r == spec_map_key(code),
{
    match code {
        KeyCode::KeyW | KeyCode::ArrowUp => Some(Direction::Forward),
        KeyCode::KeyS | KeyCode::ArrowDown => Some(Direction::Backward),
        KeyCode::KeyA | KeyCode::ArrowLeft => Some(Direction::Left),
        KeyCode::KeyD | KeyCode::ArrowRight => Some(Direction::Right),
        KeyCode::Other => None,
    }
}

/// The whole application state: camera, buffered input, the lazily
/// created render context, and whether the loop is shutting down.
#[derive(Clone, Copy, Debug, PartialEq, Eq)]
pub struct App {
    pub camera: Camera,
    pub controller: CameraController,
    pub context: Option<RenderContext>,
    pub exiting: bool,
}

impl App {
    /// Starts with no render context (none can exist before a live
    /// window) and the loop running.
    pub fn new(camera: Camera, controller: CameraController) -> (r: App)
        ensures
            r.camera == camera,
            r.controller == controller,
            r.context.is_none(),
            !r.exiting,
    {
        App { camera, controller, context: None, exiting: false }
    }

    /// Whether a resume must create the render context: only when none
    /// exists yet (a later resume reuses the one already built).
    pub fn needs_context(&self) -> (r: bool)
        ensures
            r == self.context.is_none(),
    {
        self.context.is_none()
    }

    /// Stores the context the first resume created; every other part of
    /// the state is untouched.
    pub fn install_context(&mut self, ctx: RenderContext)
        requires
            old(self).context.is_none(),
        ensures
            *final(self) == (App { context: Some(ctx), ..*old(self) }),
    {
        self.context = Some(ctx);
    }

    /// Handles a key event: a recognized key sets its movement flag to the
    /// key's pressed state, an unrecognized key changes nothing. Repeated
    /// events are idempotent.
    pub fn on_key_event(&mut self, code: KeyCode, pressed: bool)
        ensures
            final(self).camera == old(self).camera,
            final(self).context == old(self).context,
            final(self).exiting == old(self).exiting,
            final(self).controller.forward_pressed == (if spec_map_key(code) == Some(
                Direction::Forward,
            ) {
                pressed
            } else {
                old(self).controller.forward_pressed
            }),
            final(self).controller.backward_pressed == (if spec_map_key(code) == Some(
                Direction::Backward,
            ) {
                pressed
            } else {
                old(self).controller.backward_pressed
            }),
            final(self).controller.left_pressed == (if spec_map_key(code) == Some(
                Direction::Left,
            ) {
                pressed
            } else {
                old(self).controller.left_pressed
            }),
            final(self).controller.right_pressed == (if spec_map_key(code) == Some(
                Direction::Right,
            ) {
                pressed
            } else {
                old(self).controller.right_pressed
            }),
            final(self).controller.speed == old(self).controller.speed,
            final(self).controller.mouse_sens == old(self).controller.mouse_sens,
            final(self).controller.mouse_delta == old(self).controller.mouse_delta,
    {
        match map_key(code) {
            Some(d) => self.controller.set_key(d, pressed),
            None => (),
        }
    }

    /// Buffers one mouse motion event; applied at the next redraw.
    pub fn on_mouse_motion(&mut self, dx: i64, dy: i64)
        requires
            abs(dx as int) <= crate::controller::DELTA_BOUND as int,
            abs(dy as int) <= crate::controller::DELTA_BOUND as int,
            abs(old(self).controller.mouse_delta.0 + dx) <= crate::controller::DELTA_BOUND as int,
            abs(old(self).controller.mouse_delta.1 + dy) <= crate::controller::DELTA_BOUND as int,
        ensures
            final(self).camera == old(self).camera,
            final(self).context == old(self).context,
            final(self).exiting == old(self).exiting,
            final(self).controller.mouse_delta.0 == old(self).controller.mouse_delta.0 + dx,
            final(self).controller.mouse_delta.1 == old(self).controller.mouse_delta.1 + dy,
            final(self).controller.speed == old(self).controller.speed,
            final(self).controller.mouse_sens == old(self).controller.mouse_sens,
            final(self).controller.forward_pressed == old(self).controller.forward_pressed,
            final(self).controller.backward_pressed == old(self).controller.backward_pressed,
            final(self).controller.left_pressed == old(self).controller.left_pressed,
            final(self).controller.right_pressed == old(self).controller.right_pressed,
    {
        self.controller.record_motion(dx, dy);
    }

    /// Handles a window resize: a zero dimension changes nothing;
    /// otherwise the surface configuration takes the new size and the
    /// camera's aspect ratio follows the window, clamped into its valid
    /// range.
    pub fn on_resize(&mut self, width: u32, height: u32)
        requires
            old(self).context.is_some(),
        ensures
            final(self).controller == old(self).controller,
            final(self).exiting == old(self).exiting,
            (width == 0 || height == 0) ==> final(self).camera == old(self).camera,
            (width == 0 || height == 0) ==> final(self).context == old(self).context,
            (width > 0 && height > 0) ==> {
                &&& final(self).context == Some(
                    RenderContext {
                        config: crate::context::SurfaceConfig {
                            width,
                            height,
                            ..old(self).context->Some_0.config
                        },
                        ..old(self).context->Some_0
                    },
                )
                &&& final(self).camera == (Camera {
                    aspect: clamp_aspect(tdiv(width as int * SCALE as int, height as int)) as i64,
                    ..old(self).camera
                })
            },
    {
        if width == 0 || height == 0 {
            return ;
        }
        let mut ctx = self.context.unwrap();
        ctx.resize(width, height);
        self.context = Some(ctx);
        let q: i64 = ((width as i64) * SCALE) / (height as i64);
        let aspect: i64 = if q < 1 {
            1
        } else if q > FIX_BOUND {
            FIX_BOUND
        } else {
            q
        };
        self.camera.aspect = aspect;
    }

    /// Handles a failed acquire of the next drawable image: a transient
    /// failure skips the frame and leaves every part of the state intact,
    /// to try again at the next redraw; a fatal one (out of memory) marks
    /// the loop as shutting down — it is never swallowed.
    pub fn on_acquire_failed(&mut self, e: AcquireError) -> (r: FrameAction)
        ensures
            r == FrameAction::Fatal <==> e == AcquireError::OutOfMemory,
            final(self).exiting == (old(self).exiting || r == FrameAction::Fatal),
            final(self).camera == old(self).camera,
            final(self).controller == old(self).controller,
            final(self).context == old(self).context,
    {
        let action = classify_acquire(e);
        match action {
            FrameAction::Fatal => {
                self.exiting = true;
            },
            FrameAction::SkipFrame => (),
        }
        action
    }

    /// Marks the loop as shutting down; the event loop stops after this.
    pub fn on_close_requested(&mut self)
        ensures
            *final(self) == (App { exiting: true, ..*old(self) }),
    {
        self.exiting = true;
    }

    /// Runs one redraw: applies the buffered input to the camera exactly
    /// once, regenerates the camera uniform, and returns the frame to
    /// record and submit. The caller requests the next redraw right after
    /// presenting — the loop is paced only by the present mode.
    pub fn on_redraw_requested(&mut self, t: &TrigSamples, tan_half_fovy: i64) -> (r:
        FrameCommands)
        requires
            old(self).context.is_some(),
            old(self).camera.wf(),
            old(self).controller.wf(),
            t.wf(),
            old(self).camera.position.bounded(POS_BOUND - 2 * SPEED_BOUND),
            abs(
                old(self).camera.yaw + old(self).controller.mouse_delta.0 * old(
                    self,
                ).controller.mouse_sens,
            ) <= ANGLE_BOUND as int,
            abs(
                old(self).camera.pitch - old(self).controller.mouse_delta.1 * old(
                    self,
                ).controller.mouse_sens,
            ) <= ANGLE_BOUND as int,
            !(forward_x(*t) == 0 && forward_y(*t) == 0 && forward_z(*t) == 0),
            !(side_x_raw(*t) == 0 && side_z_raw(*t) == 0),
            TAN_HALF_MIN <= tan_half_fovy <= TAN_HALF_MAX,
            old(self).camera.aspect >= ASPECT_MIN,
            2 * old(self).camera.znear <= old(self).camera.zfar,
        ensures
            final(self).exiting == old(self).exiting,
            // The camera moved and turned exactly as the buffered input says.
            final(self).camera.position.x == old(self).camera.position.x + move_x(
                old(self).controller,
                *t,
            ),
            final(self).camera.position.y == old(self).camera.position.y + move_y(
                old(self).controller,
                *t,
            ),
            final(self).camera.position.z == old(self).camera.position.z + move_z(
                old(self).controller,
                *t,
            ),
            final(self).camera.yaw == old(self).camera.yaw + old(self).controller.mouse_delta.0
                * old(self).controller.mouse_sens,
            final(self).camera.pitch == old(self).camera.pitch - old(
                self,
            ).controller.mouse_delta.1 * old(self).controller.mouse_sens,
            final(self).camera.up == old(self).camera.up,
            final(self).camera.aspect == old(self).camera.aspect,
            final(self).camera.fovy == old(self).camera.fovy,
            final(self).camera.znear == old(self).camera.znear,
            final(self).camera.zfar == old(self).camera.zfar,
            final(self).camera.wf(),
            // The buffered mouse delta was consumed, the key flags stay.
            final(self).controller.mouse_delta == (0i64, 0i64),
            final(self).controller.speed == old(self).controller.speed,
            final(self).controller.mouse_sens == old(self).controller.mouse_sens,
            final(self).controller.forward_pressed == old(self).controller.forward_pressed,
            final(self).controller.backward_pressed == old(self).controller.backward_pressed,
            final(self).controller.left_pressed == old(self).controller.left_pressed,
            final(self).controller.right_pressed == old(self).controller.right_pressed,
            // The uniform was regenerated from the camera as it is now.
            final(self).context.is_some(),
            final(self).context->Some_0.uniform.view_proj == spec_view_proj(
                final(self).camera,
                *t,
                tan_half_fovy as int,
            ),
            final(self).context->Some_0.handles == old(self).context->Some_0.handles,
            final(self).context->Some_0.config == old(self).context->Some_0.config,
            final(self).context->Some_0.index_count == old(self).context->Some_0.index_count,
            final(self).context->Some_0.instance_count == old(
                self,
            ).context->Some_0.instance_count,
            // The returned frame binds exactly the context's objects and
            // draws every index for every instance with the new uniform.
            r.pipeline == old(self).context->Some_0.handles.pipeline,
            r.texture_bind_set == old(self).context->Some_0.handles.texture_bind_set,
            r.camera_bind_set == old(self).context->Some_0.handles.camera_bind_set,
            r.vertex_buffer == old(self).context->Some_0.handles.vertex_buffer,
            r.instance_buffer == old(self).context->Some_0.handles.instance_buffer,
            r.index_buffer == old(self).context->Some_0.handles.index_buffer,
            r.uniform_buffer == old(self).context->Some_0.handles.uniform_buffer,
            r.uniform == final(self).context->Some_0.uniform,
            r.index_count == old(self).context->Some_0.index_count,
            r.instance_count == old(self).context->Some_0.instance_count,
    {
        self.controller.update_camera(&mut self.camera, t);
        let mut ctx = self.context.unwrap();
        let commands = ctx.prepare_frame(&self.camera, t, tan_half_fovy);
        self.context = Some(ctx);
        commands
    }
}

/// Clamps a computed aspect ratio into the camera's valid range.
pub open spec fn clamp_aspect(q: int) -> int {
    if q < 1 {
        1
    } else if q > FIX_BOUND as int {
        FIX_BOUND as int
    } else {
        q
    }
}

} // verus!
