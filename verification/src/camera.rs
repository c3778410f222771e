//! Camera pose and projection parameters.
//!
//! Positions are scaled length units, angles are scaled radians, the field
//! of view is scaled degrees (see [`crate::fixed`]). The camera never
//! computes a sine or cosine itself: the caller samples the trigonometric
//! functions of the current pitch and yaw (in whatever way it likes) and
//! hands the scaled samples in as a [`TrigSamples`] value.

use vstd::prelude::*;
use crate::fixed::{
    abs, lemma_mul_abs_bound, lemma_mul_scaled_bound, lemma_tdiv_remainder, mul_scaled, scale_mul,
    tdiv, FIX_BOUND, SCALE,
};
use crate::vec3::Vec3;

verus! {

/// Largest magnitude the camera position may reach.
pub const POS_BOUND: i64 = 1_000_000_000_000;

/// Largest magnitude the pitch and yaw angles may reach (scaled radians;
/// there is no clamp at the vertical, by design, so the bound is generous).
pub const ANGLE_BOUND: i64 = 1_000_000_000_000;

/// Scaled samples of sine and cosine of the camera's pitch and yaw.
#[derive(Clone, Copy, Debug, PartialEq, Eq, Structural)]
pub struct TrigSamples {
    pub sin_pitch: i64,
    pub cos_pitch: i64,
    pub sin_yaw: i64,
    pub cos_yaw: i64,
}

impl TrigSamples {
    /// Samples of a sine or cosine stay within one scaled unit.
    pub open spec fn wf(self) -> bool {
        abs(self.sin_pitch as int) <= SCALE as int && abs(self.cos_pitch as int) <= SCALE as int
            && abs(self.sin_yaw as int) <= SCALE as int && abs(self.cos_yaw as int)
            <= SCALE as int
    }
}

/// x-component of the camera's forward vector: `cos(pitch) * sin(yaw)`.
pub open spec fn forward_x(t: TrigSamples) -> int {
    mul_scaled(t.cos_pitch as int, t.sin_yaw as int)
}

/// y-component of the camera's forward vector: `sin(pitch)`.
pub open spec fn forward_y(t: TrigSamples) -> int {
    t.sin_pitch as int
}

/// z-component of the camera's forward vector: `-cos(pitch) * cos(yaw)`,
/// so that zero pitch and yaw look straight down the negative z-axis.
pub open spec fn forward_z(t: TrigSamples) -> int {
    -mul_scaled(t.cos_pitch as int, t.cos_yaw as int)
}

/// Camera pose and projection parameters.
#[derive(Clone, Copy, Debug, PartialEq, Eq, Structural)]
pub struct Camera {
    /// Eye position, scaled length units.
    pub position: Vec3,
    /// Tilt above the horizontal plane, scaled radians.
    pub pitch: i64,
    /// Rotation in the horizontal plane, scaled radians.
    pub yaw: i64,
    /// World up direction; fixed, never derived from pitch and yaw.
    pub up: Vec3,
    /// Width over height of the drawable surface, scaled.
    pub aspect: i64,
    /// Vertical field of view, scaled degrees.
    pub fovy: i64,
    /// Near clip distance, scaled length units.
    pub znear: i64,
    /// Far clip distance, scaled length units.
    pub zfar: i64,
}

impl Camera {
    /// Validity of the pose and the projection parameters: bounded position
    /// and angles, the fixed world up axis, a positive aspect ratio, a
    /// proper field of view and `0 < znear < zfar`.
    pub open spec fn wf(self) -> bool {
        &&& self.position.bounded(POS_BOUND as int)
        &&& abs(self.pitch as int) <= ANGLE_BOUND as int
        &&& abs(self.yaw as int) <= ANGLE_BOUND as int
        &&& self.up == (Vec3 { x: 0, y: SCALE, z: 0 })
        &&& 0 < self.aspect <= FIX_BOUND
        &&& 0 < self.fovy < 180 * SCALE
        &&& 0 < self.znear < self.zfar <= FIX_BOUND
    }

    /// Builds the camera of the viewer's startup pose: standing at
    /// `(0, 1, 2)`, looking straight ahead, with a 45-degree vertical field
    /// of view and clip distances 0.01 and 100.
    pub fn new(aspect: i64) -> (r: Camera)
        requires
            0 < aspect <= FIX_BOUND,
        ensures
            r.position.x == 0,
            r.position.y == SCALE,
            r.position.z == 2 * SCALE,
            r.pitch == 0,
            r.yaw == 0,
            r.up == (Vec3 { x: 0, y: SCALE, z: 0 }),
            r.aspect == aspect,
            r.fovy == 45 * SCALE,
            r.znear == SCALE / 100,
            r.zfar == 100 * SCALE,
            r.wf(),
    {
        Camera {
            position: Vec3 { x: 0, y: SCALE, z: 2 * SCALE },
            pitch: 0,
            yaw: 0,
            up: Vec3 { x: 0, y: SCALE, z: 0 },
            aspect,
            fovy: 45 * SCALE,
            znear: SCALE / 100,
            zfar: 100 * SCALE,
        }
    }

    /// The unit vector the camera looks along, from the given samples of
    /// its pitch and yaw. Yaw turns in the horizontal plane, pitch tilts
    /// vertically; the position plays no part.
    pub fn get_camera_forward(&self, t: &TrigSamples) -> (r: Vec3)
        requires
            t.wf(),
        ensures
            r.x == forward_x(*t),
            r.y == forward_y(*t),
            r.z == forward_z(*t),
            r.bounded(SCALE as int),
    {
        proof {
            lemma_mul_scaled_bound(
                t.cos_pitch as int,
                t.sin_yaw as int,
                SCALE as int,
                SCALE as int,
            );
            lemma_mul_scaled_bound(
                t.cos_pitch as int,
                t.cos_yaw as int,
                SCALE as int,
                SCALE as int,
            );
        }
        let z = scale_mul(t.cos_pitch, t.cos_yaw);
        Vec3 { x: scale_mul(t.cos_pitch, t.sin_yaw), y: t.sin_pitch, z: -z }
    }
}

/// For every pitch/yaw pair whose sine and cosine samples satisfy the
/// Pythagorean identity up to `eps`, the forward vector has unit length up
/// to `2 * eps + 4 * SCALE + 2`: truncation costs at most a few
/// micro-units beyond the samples' own error.
pub proof fn lemma_forward_unit_length(t: TrigSamples, eps: int)
    requires
        t.wf(),
        0 <= eps,
        abs(
            t.sin_pitch * t.sin_pitch + t.cos_pitch * t.cos_pitch - (SCALE as int) * (
            SCALE as int),
        ) <= eps,
        abs(
            t.sin_yaw * t.sin_yaw + t.cos_yaw * t.cos_yaw - (SCALE as int) * (SCALE as int),
        ) <= eps,
    ensures
        abs(
            forward_x(t) * forward_x(t) + forward_y(t) * forward_y(t) + forward_z(t) * forward_z(
                t,
            ) - (SCALE as int) * (SCALE as int),
        ) <= 2 * eps + 4 * (SCALE as int) + 2,
{
    let s = SCALE as int;
    let sp = t.sin_pitch as int;
    let cp = t.cos_pitch as int;
    let sy = t.sin_yaw as int;
    let cy = t.cos_yaw as int;
    let a = cp * sy;
    let b = cp * cy;
    let fx = forward_x(t);
    let fy = forward_y(t);
    let fz = forward_z(t);
    let dp = sp * sp + cp * cp - s * s;
    let dy = sy * sy + cy * cy - s * s;

    lemma_tdiv_remainder(a, s);
    lemma_tdiv_remainder(b, s);
    let rx = a - s * tdiv(a, s);
    let rz = b - s * tdiv(b, s);
    assert(s * fx == a - rx);
    assert(s * fz == -(b - rz));

    assert(s * s * (fx * fx) == a * a - 2 * (a * rx) + rx * rx) by (nonlinear_arith)
        requires
            s * fx == a - rx,
    ;
    assert(s * s * (fz * fz) == b * b - 2 * (b * rz) + rz * rz) by (nonlinear_arith)
        requires
            s * fz == -(b - rz),
    ;
    assert(a * a + b * b == cp * cp * (s * s) + cp * cp * dy) by (nonlinear_arith)
        requires
            a == cp * sy,
            b == cp * cy,
            dy == sy * sy + cy * cy - s * s,
    ;
    assert(s * s * (fy * fy) + cp * cp * (s * s) == s * s * (s * s) + s * s * dp) by (
    nonlinear_arith)
        requires
            fy == sp,
            dp == sp * sp + cp * cp - s * s,
    ;

    // Bounds on each error term.
    lemma_mul_abs_bound(cp, sy, s, s);
    lemma_mul_abs_bound(cp, cy, s, s);
    assert(-(s * s * eps) <= cp * cp * dy <= s * s * eps) by (nonlinear_arith)
        requires
            -s <= cp <= s,
            -eps <= dy <= eps,
            0 <= eps,
    ;
    assert(-(s * s * eps) <= s * s * dp <= s * s * eps) by (nonlinear_arith)
        requires
            -eps <= dp <= eps,
            0 <= eps,
            s == SCALE as int,
    ;
    assert(-(s * s * s) <= a * rx <= s * s * s) by (nonlinear_arith)
        requires
            -(s * s) <= a <= s * s,
            -s <= rx <= s,
            s >= 1,
    ;
    assert(-(s * s * s) <= b * rz <= s * s * s) by (nonlinear_arith)
        requires
            -(s * s) <= b <= s * s,
            -s <= rz <= s,
            s >= 1,
    ;
    assert(0 <= rx * rx <= s * s) by (nonlinear_arith)
        requires
            -s <= rx <= s,
    ;
    assert(0 <= rz * rz <= s * s) by (nonlinear_arith)
        requires
            -s <= rz <= s,
    ;

    // Assemble: s*s*(fx*fx + fy*fy + fz*fz) - s*s*(s*s)
    //   == s*s*dp + cp*cp*dy - 2*(a*rx) + rx*rx - 2*(b*rz) + rz*rz,
    // whose magnitude is at most s*s*(2*eps + 4*s + 2).
    let total = fx * fx + fy * fy + fz * fz;
    assert(s * s * total == s * s * (fx * fx) + s * s * (fy * fy) + s * s * (fz * fz)) by (
    nonlinear_arith)
        requires
            total == fx * fx + fy * fy + fz * fz,
    ;
    assert(s * s * (2 * eps + 4 * s + 2) == 2 * (s * s * eps) + 4 * (s * s * s) + 2 * (s * s))
        by (nonlinear_arith);
    assert(abs(s * s * total - s * s * (s * s)) <= s * s * (2 * eps + 4 * s + 2));
    assert(abs(total - s * s) <= 2 * eps + 4 * s + 2) by (nonlinear_arith)
        requires
            -(s * s * (2 * eps + 4 * s + 2)) <= s * s * total - s * s * (s * s) <= s * s * (2 * eps
                + 4 * s + 2),
            s >= 1,
            0 <= eps,
    ;
}

} // verus!
