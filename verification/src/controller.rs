//! Input-driven camera control.
//!
//! The controller buffers discrete key state and a running sum of mouse
//! motion between frames, and applies both to the camera exactly once per
//! frame. Mouse counts are plain integers; the sensitivity converts counts
//! to scaled radians, the speed converts a unit direction to scaled length
//! units per frame.

use vstd::prelude::*;
use crate::camera::{forward_x, forward_y, forward_z, Camera, TrigSamples, ANGLE_BOUND, POS_BOUND};
use crate::fixed::{abs, lemma_mul_abs_bound, lemma_mul_scaled_unit_bound, mul_scaled};
use crate::vec3::{lemma_cross_with_up, Vec3};

verus! {

/// Largest accumulated mouse delta, in counts.
pub const DELTA_BOUND: i64 = 1_000_000_000;

/// Largest mouse sensitivity, in scaled radians per count.
pub const SENS_BOUND: i64 = 1_000_000;

/// Largest movement speed, in scaled length units per frame.
pub const SPEED_BOUND: i64 = 1_000_000_000;

/// One of the four movement directions a key can drive.
#[derive(Clone, Copy, Debug, PartialEq, Eq, Structural)]
pub enum Direction {
    Forward,
    Backward,
    Left,
    Right,
}

/// Buffered input state: four key flags and the accumulated mouse delta.
#[derive(Clone, Copy, Debug, PartialEq, Eq)]
pub struct CameraController {
    /// Movement speed, scaled length units per frame.
    pub speed: i64,
    /// Mouse sensitivity, scaled radians per count.
    pub mouse_sens: i64,
    /// Sum of the mouse motion recorded since the last apply, in counts.
    pub mouse_delta: (i64, i64),
    pub forward_pressed: bool,
    pub backward_pressed: bool,
    pub left_pressed: bool,
    pub right_pressed: bool,
}

/// x-component of the position change one apply makes: speed along the
/// forward vector for the forward/backward keys, speed along the right
/// vector (the forward vector turned a quarter in the horizontal plane)
/// for the strafe keys, compounding additively.
pub open spec fn move_x(c: CameraController, t: TrigSamples) -> int {
    let mf = mul_scaled(forward_x(t), c.speed as int);
    let mr = mul_scaled(-forward_z(t), c.speed as int);
    (if c.forward_pressed {
        mf
    } else {
        0
    }) - (if c.backward_pressed {
        mf
    } else {
        0
    }) - (if c.left_pressed {
        mr
    } else {
        0
    }) + (if c.right_pressed {
        mr
    } else {
        0
    })
}

/// y-component of the position change one apply makes: only the
/// forward/backward keys move vertically (the right vector is horizontal).
pub open spec fn move_y(c: CameraController, t: TrigSamples) -> int {
    let mf = mul_scaled(forward_y(t), c.speed as int);
    (if c.forward_pressed {
        mf
    } else {
        0
    }) - (if c.backward_pressed {
        mf
    } else {
        0
    })
}

/// z-component of the position change one apply makes.
pub open spec fn move_z(c: CameraController, t: TrigSamples) -> int {
    let mf = mul_scaled(forward_z(t), c.speed as int);
    let mr = mul_scaled(forward_x(t), c.speed as int);
    (if c.forward_pressed {
        mf
    } else {
        0
    }) - (if c.backward_pressed {
        mf
    } else {
        0
    }) - (if c.left_pressed {
        mr
    } else {
        0
    }) + (if c.right_pressed {
        mr
    } else {
        0
    })
}

impl CameraController {
    /// Validity: nonnegative bounded speed and sensitivity, bounded delta.
    pub open spec fn wf(self) -> bool {
        &&& 0 <= self.speed <= SPEED_BOUND
        &&& 0 <= self.mouse_sens <= SENS_BOUND
        &&& abs(self.mouse_delta.0 as int) <= DELTA_BOUND as int
        &&& abs(self.mouse_delta.1 as int) <= DELTA_BOUND as int
    }

    /// A fresh controller: no keys pressed, no motion buffered.
    pub fn new(speed: i64, mouse_sens: i64) -> (r: CameraController)
        requires
            0 <= speed <= SPEED_BOUND,
            0 <= mouse_sens <= SENS_BOUND,
        ensures
            r.speed == speed,
            r.mouse_sens == mouse_sens,
            r.mouse_delta == (0i64, 0i64),
            !r.forward_pressed,
            !r.backward_pressed,
            !r.left_pressed,
            !r.right_pressed,
            r.wf(),
    {
        CameraController {
            speed,
            mouse_sens,
            mouse_delta: (0, 0),
            forward_pressed: false,
            backward_pressed: false,
            left_pressed: false,
            right_pressed: false,
        }
    }

    /// Adds one mouse motion event to the running sum. May be called any
    /// number of times between two applies; only the sum matters.
    pub fn record_motion(&mut self, dx: i64, dy: i64)
        requires
            abs(dx as int) <= DELTA_BOUND as int,
            abs(dy as int) <= DELTA_BOUND as int,
            abs(old(self).mouse_delta.0 + dx) <= DELTA_BOUND as int,
            abs(old(self).mouse_delta.1 + dy) <= DELTA_BOUND as int,
        ensures
            final(self).mouse_delta.0 == old(self).mouse_delta.0 + dx,
            final(self).mouse_delta.1 == old(self).mouse_delta.1 + dy,
            final(self).speed == old(self).speed,
            final(self).mouse_sens == old(self).mouse_sens,
            final(self).forward_pressed == old(self).forward_pressed,
            final(self).backward_pressed == old(self).backward_pressed,
            final(self).left_pressed == old(self).left_pressed,
            final(self).right_pressed == old(self).right_pressed,
    {
        self.mouse_delta.0 = self.mouse_delta.0 + dx;
        self.mouse_delta.1 = self.mouse_delta.1 + dy;
    }

    /// Sets one directional key flag; repeating the same event changes
    /// nothing further.
    pub fn set_key(&mut self, d: Direction, pressed: bool)
        ensures
            final(self).forward_pressed == (if d == Direction::Forward {
                pressed
            } else {
                old(self).forward_pressed
            }),
            final(self).backward_pressed == (if d == Direction::Backward {
                pressed
            } else {
                old(self).backward_pressed
            }),
            final(self).left_pressed == (if d == Direction::Left {
                pressed
            } else {
                old(self).left_pressed
            }),
            final(self).right_pressed == (if d == Direction::Right {
                pressed
            } else {
                old(self).right_pressed
            }),
            final(self).speed == old(self).speed,
            final(self).mouse_sens == old(self).mouse_sens,
            final(self).mouse_delta == old(self).mouse_delta,
    {
        match d {
            Direction::Forward => {
                self.forward_pressed = pressed;
            },
            Direction::Backward => {
                self.backward_pressed = pressed;
            },
            Direction::Left => {
                self.left_pressed = pressed;
            },
            Direction::Right => {
                self.right_pressed = pressed;
            },
        }
    }

    /// Applies the buffered input to the camera, once per frame: moves the
    /// position along the forward and right vectors for each pressed key,
    /// turns yaw and pitch by the accumulated mouse delta times the
    /// sensitivity (pitch inverted, so looking up raises it), then clears
    /// the delta. Nothing clamps the pitch: the camera may turn past the
    /// vertical, as the design intends.
    #[verifier::rlimit(50)]
    pub fn update_camera(&mut self, camera: &mut Camera, t: &TrigSamples)
        requires
            old(self).wf(),
            old(camera).wf(),
            t.wf(),
            old(camera).position.bounded(POS_BOUND - 2 * SPEED_BOUND),
            abs(old(camera).yaw + old(self).mouse_delta.0 * old(self).mouse_sens)
                <= ANGLE_BOUND as int,
            abs(old(camera).pitch - old(self).mouse_delta.1 * old(self).mouse_sens)
                <= ANGLE_BOUND as int,
        ensures
            final(camera).position.x == old(camera).position.x + move_x(*old(self), *t),
            final(camera).position.y == old(camera).position.y + move_y(*old(self), *t),
            final(camera).position.z == old(camera).position.z + move_z(*old(self), *t),
            final(camera).yaw == old(camera).yaw + old(self).mouse_delta.0 * old(
                self,
            ).mouse_sens,
            final(camera).pitch == old(camera).pitch - old(self).mouse_delta.1 * old(
                self,
            ).mouse_sens,
            final(camera).up == old(camera).up,
            final(camera).aspect == old(camera).aspect,
            final(camera).fovy == old(camera).fovy,
            final(camera).znear == old(camera).znear,
            final(camera).zfar == old(camera).zfar,
            final(camera).wf(),
            final(self).mouse_delta == (0i64, 0i64),
            final(self).speed == old(self).speed,
            final(self).mouse_sens == old(self).mouse_sens,
            final(self).forward_pressed == old(self).forward_pressed,
            final(self).backward_pressed == old(self).backward_pressed,
            final(self).left_pressed == old(self).left_pressed,
            final(self).right_pressed == old(self).right_pressed,
            final(self).wf(),
    {
        let forward = camera.get_camera_forward(t);
        let right = forward.cross(camera.up);
        proof {
            lemma_cross_with_up(forward, camera.up);
            assert(right.x == -(forward.z as int));
            assert(right.y == 0);
            assert(right.z == forward.x as int);
            lemma_mul_scaled_unit_bound(forward.x as int, self.speed as int);
            lemma_mul_scaled_unit_bound(forward.y as int, self.speed as int);
            lemma_mul_scaled_unit_bound(forward.z as int, self.speed as int);
            lemma_mul_scaled_unit_bound(-(forward.z as int), self.speed as int);
            lemma_mul_abs_bound(
                self.mouse_delta.0 as int,
                self.mouse_sens as int,
                DELTA_BOUND as int,
                SENS_BOUND as int,
            );
            lemma_mul_abs_bound(
                self.mouse_delta.1 as int,
                self.mouse_sens as int,
                DELTA_BOUND as int,
                SENS_BOUND as int,
            );
        }
        let step_forward = forward.scale(self.speed);
        let step_right = right.scale(self.speed);
        if self.forward_pressed {
            camera.position = camera.position.add(step_forward);
        }
        if self.backward_pressed {
            camera.position = camera.position.sub(step_forward);
        }
        if self.left_pressed {
            camera.position = camera.position.sub(step_right);
        }
        if self.right_pressed {
            camera.position = camera.position.add(step_right);
        }
        camera.yaw = camera.yaw + self.mouse_delta.0 * self.mouse_sens;
        camera.pitch = camera.pitch - self.mouse_delta.1 * self.mouse_sens;
        self.mouse_delta = (0, 0);
    }
}

/// The accumulated delta that a run of `record_motion` calls leaves,
/// starting from `d0` and taking the recorded pairs in order.
pub open spec fn fold_deltas(d0: (int, int), ds: Seq<(int, int)>) -> (int, int)
    decreases ds.len(),
{
    if ds.len() == 0 {
        d0
    } else {
        let p = fold_deltas(d0, ds.drop_last());
        (p.0 + ds.last().0, p.1 + ds.last().1)
    }
}

/// Sum of the first components of a sequence of pairs.
pub open spec fn sum_dx(ds: Seq<(int, int)>) -> int
    decreases ds.len(),
{
    if ds.len() == 0 {
        0
    } else {
        sum_dx(ds.drop_last()) + ds.last().0
    }
}

/// Sum of the second components of a sequence of pairs.
pub open spec fn sum_dy(ds: Seq<(int, int)>) -> int
    decreases ds.len(),
{
    if ds.len() == 0 {
        0
    } else {
        sum_dy(ds.drop_last()) + ds.last().1
    }
}

/// Any sequence of recorded motions between two applies accumulates to the
/// starting delta plus the componentwise sum of the recorded pairs; since
/// an apply leaves the delta at zero, the delta the next apply consumes is
/// exactly the sum, and the yaw and pitch change by the sensitivity times
/// that sum (see `update_camera`).
pub proof fn lemma_motion_accumulates(d0: (int, int), ds: Seq<(int, int)>)
    ensures
        fold_deltas(d0, ds).0 == d0.0 + sum_dx(ds),
        fold_deltas(d0, ds).1 == d0.1 + sum_dy(ds),
        fold_deltas((0int, 0int), ds) == (sum_dx(ds), sum_dy(ds)),
    decreases ds.len(),
{
    if ds.len() > 0 {
        lemma_motion_accumulates(d0, ds.drop_last());
        lemma_motion_accumulates((0int, 0int), ds.drop_last());
    }
}

/// Pressing forward and backward together cancels exactly: the position
/// change is the one of the same controller with both keys released,
/// whatever the strafe keys do. In particular, with no strafe key pressed
/// the position does not move at all.
pub proof fn lemma_forward_backward_cancel(c: CameraController, t: TrigSamples)
    requires
        c.forward_pressed,
        c.backward_pressed,
    ensures
        move_x(c, t) == move_x(
            CameraController { forward_pressed: false, backward_pressed: false, ..c },
            t,
        ),
        move_y(c, t) == move_y(
            CameraController { forward_pressed: false, backward_pressed: false, ..c },
            t,
        ),
        move_z(c, t) == move_z(
            CameraController { forward_pressed: false, backward_pressed: false, ..c },
            t,
        ),
        !c.left_pressed && !c.right_pressed ==> move_x(c, t) == 0 && move_y(c, t) == 0 && move_z(
            c,
            t,
        ) == 0,
{
}

} // verus!
