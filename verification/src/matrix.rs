//! View and projection matrices.
//!
//! A [`Mat4`] holds sixteen scaled fixed-point entries, row-major. The view
//! matrix is the right-handed look-at matrix built from the camera position,
//! its forward vector and the fixed up axis; the projection is the usual
//! perspective matrix; a depth-range correction finally remaps clip-space z
//! from the [-1, 1] convention of the projection to the [0, 1] range the
//! target graphics interface consumes.

use vstd::prelude::*;
use crate::camera::{
    forward_x, forward_y, forward_z, lemma_forward_unit_length, Camera, TrigSamples,
};
use crate::fixed::{
    abs, lemma_mul_abs_bound, lemma_sqrt_floor_props, lemma_tdiv_bound, lemma_tdiv_multiple,
    lemma_tdiv_neg, lemma_tdiv_remainder, lemma_tdiv_scale_cancel, mul_scaled, sqrt_floor, tdiv,
    FIX_BOUND, SCALE,
};
use crate::vec3::{lemma_cross_with_up, lemma_dot_scaled_bound, Vec3};

verus! {

/// A 4x4 matrix of scaled fixed-point entries, row-major: `mRC` is the
/// entry of row `R`, column `C`.
#[derive(Clone, Copy, Debug, PartialEq, Eq, Structural)]
pub struct Mat4 {
    pub m00: i64,
    pub m01: i64,
    pub m02: i64,
    pub m03: i64,
    pub m10: i64,
    pub m11: i64,
    pub m12: i64,
    pub m13: i64,
    pub m20: i64,
    pub m21: i64,
    pub m22: i64,
    pub m23: i64,
    pub m30: i64,
    pub m31: i64,
    pub m32: i64,
    pub m33: i64,
}

/// Smallest accepted tangent of half the field of view (0.01).
pub const TAN_HALF_MIN: i64 = 10_000;

/// Largest accepted tangent of half the field of view (100.0).
pub const TAN_HALF_MAX: i64 = 100_000_000;

/// Smallest accepted aspect ratio (0.01).
pub const ASPECT_MIN: i64 = 10_000;

/// Cap on the magnitude of a composed view-projection entry.
pub const ENTRY_BOUND: i64 = 100_000_000_000_000_000;

impl Mat4 {
    /// Every entry has magnitude at most `b`.
    pub open spec fn bounded(self, b: int) -> bool {
        &&& abs(self.m00 as int) <= b && abs(self.m01 as int) <= b && abs(self.m02 as int) <= b
            && abs(self.m03 as int) <= b
        &&& abs(self.m10 as int) <= b && abs(self.m11 as int) <= b && abs(self.m12 as int) <= b
            && abs(self.m13 as int) <= b
        &&& abs(self.m20 as int) <= b && abs(self.m21 as int) <= b && abs(self.m22 as int) <= b
            && abs(self.m23 as int) <= b
        &&& abs(self.m30 as int) <= b && abs(self.m31 as int) <= b && abs(self.m32 as int) <= b
            && abs(self.m33 as int) <= b
    }
}

/// Floor length of the camera's forward vector (close to `SCALE` whenever
/// the trigonometric samples are sound).
pub open spec fn fwd_norm(t: TrigSamples) -> int {
    sqrt_floor(
        forward_x(t) * forward_x(t) + forward_y(t) * forward_y(t) + forward_z(t) * forward_z(t),
    )
}

/// x-component of the normalized forward vector.
pub open spec fn unit_fwd_x(t: TrigSamples) -> int {
    tdiv(forward_x(t) * (SCALE as int), fwd_norm(t))
}

/// y-component of the normalized forward vector.
pub open spec fn unit_fwd_y(t: TrigSamples) -> int {
    tdiv(forward_y(t) * (SCALE as int), fwd_norm(t))
}

/// z-component of the normalized forward vector.
pub open spec fn unit_fwd_z(t: TrigSamples) -> int {
    tdiv(forward_z(t) * (SCALE as int), fwd_norm(t))
}

/// x-component of the unnormalized side vector, the cross product of the
/// normalized forward vector with the fixed up axis: `(-fz, 0, fx)`.
pub open spec fn side_x_raw(t: TrigSamples) -> int {
    -unit_fwd_z(t)
}

/// z-component of the unnormalized side vector.
pub open spec fn side_z_raw(t: TrigSamples) -> int {
    unit_fwd_x(t)
}

/// Floor length of the side vector (its y-component is zero).
pub open spec fn side_norm(t: TrigSamples) -> int {
    sqrt_floor(side_x_raw(t) * side_x_raw(t) + side_z_raw(t) * side_z_raw(t))
}

/// x-component of the normalized side vector.
pub open spec fn side_x(t: TrigSamples) -> int {
    tdiv(side_x_raw(t) * (SCALE as int), side_norm(t))
}

/// z-component of the normalized side vector.
pub open spec fn side_z(t: TrigSamples) -> int {
    tdiv(side_z_raw(t) * (SCALE as int), side_norm(t))
}

/// x-component of the recomputed up vector, the scaled cross product of the
/// normalized side and forward vectors.
pub open spec fn up2_x(t: TrigSamples) -> int {
    tdiv(-(side_z(t) * unit_fwd_y(t)), SCALE as int)
}

/// y-component of the recomputed up vector.
pub open spec fn up2_y(t: TrigSamples) -> int {
    tdiv(side_z(t) * unit_fwd_x(t) - side_x(t) * unit_fwd_z(t), SCALE as int)
}

/// z-component of the recomputed up vector.
pub open spec fn up2_z(t: TrigSamples) -> int {
    tdiv(side_x(t) * unit_fwd_y(t), SCALE as int)
}

/// Translation entry of the view matrix's first row: minus the scaled dot
/// product of the normalized side vector with the eye position.
pub open spec fn view_m03(t: TrigSamples, eye: Vec3) -> int {
    -tdiv(side_x(t) * (eye.x as int) + side_z(t) * (eye.z as int), SCALE as int)
}

/// Translation entry of the view matrix's second row.
pub open spec fn view_m13(t: TrigSamples, eye: Vec3) -> int {
    -tdiv(
        up2_x(t) * (eye.x as int) + up2_y(t) * (eye.y as int) + up2_z(t) * (eye.z as int),
        SCALE as int,
    )
}

/// Translation entry of the view matrix's third row: plus the scaled dot
/// product of the normalized forward vector with the eye position.
pub open spec fn view_m23(t: TrigSamples, eye: Vec3) -> int {
    tdiv(
        unit_fwd_x(t) * (eye.x as int) + unit_fwd_y(t) * (eye.y as int) + unit_fwd_z(t) * (
        eye.z as int),
        SCALE as int,
    )
}

impl Camera {
    /// Builds the right-handed look-at view matrix from the camera position,
    /// the forward vector the given samples define, and the fixed up axis.
    /// The rows are the normalized side vector, the recomputed up vector and
    /// the negated normalized forward vector, each with its translation
    /// entry; the forward vector must be nonzero and not parallel to the up
    /// axis.
    #[verifier::rlimit(80)]
    pub fn build_view_matrix(&self, t: &TrigSamples) -> (r: Mat4)
        requires
            self.wf(),
            t.wf(),
            !(forward_x(*t) == 0 && forward_y(*t) == 0 && forward_z(*t) == 0),
            !(side_x_raw(*t) == 0 && side_z_raw(*t) == 0),
        ensures
            r.m00 == side_x(*t),
            r.m01 == 0,
            r.m02 == side_z(*t),
            r.m03 == view_m03(*t, self.position),
            r.m10 == up2_x(*t),
            r.m11 == up2_y(*t),
            r.m12 == up2_z(*t),
            r.m13 == view_m13(*t, self.position),
            r.m20 == -unit_fwd_x(*t),
            r.m21 == -unit_fwd_y(*t),
            r.m22 == -unit_fwd_z(*t),
            r.m23 == view_m23(*t, self.position),
            r.m30 == 0,
            r.m31 == 0,
            r.m32 == 0,
            r.m33 == SCALE,
            abs(r.m00 as int) <= SCALE as int,
            abs(r.m02 as int) <= SCALE as int,
            abs(r.m10 as int) <= SCALE as int,
            abs(r.m11 as int) <= 2 * SCALE as int,
            abs(r.m12 as int) <= SCALE as int,
            abs(r.m20 as int) <= SCALE as int,
            abs(r.m21 as int) <= SCALE as int,
            abs(r.m22 as int) <= SCALE as int,
            abs(r.m03 as int) <= 3 * FIX_BOUND as int,
            abs(r.m13 as int) <= 6 * FIX_BOUND as int,
            abs(r.m23 as int) <= 3 * FIX_BOUND as int,
    {
        let fwd = self.get_camera_forward(t);
        let fhat = fwd.normalize();
        let side = fhat.cross(self.up);
        proof {
            lemma_cross_with_up(fhat, self.up);
            assert(side.x == side_x_raw(*t));
            assert(side.y == 0);
            assert(side.z == side_z_raw(*t));
            assert((side.y as int) * (side.y as int) == 0) by (nonlinear_arith)
                requires
                    side.y == 0i64,
            ;
        }
        let shat = side.normalize();
        proof {
            assert(side.norm_sq() == side_x_raw(*t) * side_x_raw(*t) + side_z_raw(*t) * side_z_raw(
                *t,
            ));
            assert(side_x_raw(*t) * side_x_raw(*t) >= 1 || side_z_raw(*t) * side_z_raw(*t) >= 1)
                by (nonlinear_arith)
                requires
                    !(side_x_raw(*t) == 0 && side_z_raw(*t) == 0),
            ;
            assert(side_x_raw(*t) * side_x_raw(*t) >= 0) by (nonlinear_arith);
            assert(side_z_raw(*t) * side_z_raw(*t) >= 0) by (nonlinear_arith);
            crate::fixed::lemma_sqrt_floor_props(side.norm_sq());
            if side_norm(*t) == 0 {
                assert((side_norm(*t) + 1) * (side_norm(*t) + 1) == 1) by (nonlinear_arith)
                    requires
                        side_norm(*t) == 0,
                ;
                assert(false);
            }
            lemma_tdiv_multiple(0, side_norm(*t));
            assert(shat.x == side_x(*t));
            assert(shat.y == 0);
            assert(shat.z == side_z(*t));
            assert((shat.y as int) * (fhat.z as int) == 0) by (nonlinear_arith)
                requires
                    shat.y == 0i64,
            ;
            assert((shat.y as int) * (fhat.x as int) == 0) by (nonlinear_arith)
                requires
                    shat.y == 0i64,
            ;
        }
        let u = shat.cross(fhat);
        proof {
            assert(u.x == up2_x(*t));
            assert(u.y == up2_y(*t));
            assert(u.z == up2_z(*t));
            // Bounds on the recomputed up vector.
            lemma_mul_abs_bound(side_z(*t), unit_fwd_y(*t), SCALE as int, SCALE as int);
            lemma_mul_abs_bound(side_z(*t), unit_fwd_x(*t), SCALE as int, SCALE as int);
            lemma_mul_abs_bound(side_x(*t), unit_fwd_z(*t), SCALE as int, SCALE as int);
            lemma_mul_abs_bound(side_x(*t), unit_fwd_y(*t), SCALE as int, SCALE as int);
            lemma_tdiv_bound(-(side_z(*t) * unit_fwd_y(*t)), SCALE as int, SCALE as int);
            lemma_tdiv_bound(
                side_z(*t) * unit_fwd_x(*t) - side_x(*t) * unit_fwd_z(*t),
                SCALE as int,
                2 * SCALE as int,
            );
            lemma_tdiv_bound(side_x(*t) * unit_fwd_y(*t), SCALE as int, SCALE as int);
            assert(u.bounded(2 * SCALE as int));
        }
        let tx = shat.dot(self.position);
        let ty = u.dot(self.position);
        let tz = fhat.dot(self.position);
        proof {
            assert((shat.y as int) * (self.position.y as int) == 0) by (nonlinear_arith)
                requires
                    shat.y == 0i64,
            ;
            lemma_dot_scaled_bound(shat, self.position, SCALE as int, FIX_BOUND as int);
            lemma_dot_scaled_bound(u, self.position, 2 * SCALE as int, FIX_BOUND as int);
            lemma_dot_scaled_bound(fhat, self.position, SCALE as int, FIX_BOUND as int);
            assert(tx == -view_m03(*t, self.position));
            assert(ty == -view_m13(*t, self.position));
            assert(tz == view_m23(*t, self.position));
        }
        Mat4 {
            m00: shat.x,
            m01: shat.y,
            m02: shat.z,
            m03: -tx,
            m10: u.x,
            m11: u.y,
            m12: u.z,
            m13: -ty,
            m20: -fhat.x,
            m21: -fhat.y,
            m22: -fhat.z,
            m23: tz,
            m30: 0,
            m31: 0,
            m32: 0,
            m33: SCALE,
        }
    }

    /// The four nonzero entries of the perspective projection: the focal
    /// terms for x and y and the two depth terms, in the [-1, 1] clip-space
    /// convention (the depth-range correction comes after). The bounds on
    /// the tangent, the aspect ratio and the clip distances only keep
    /// every intermediate inside the fixed-point range.
    pub fn perspective_parts(&self, tan_half_fovy: i64) -> (r: (i64, i64, i64, i64))
        requires
            self.wf(),
            TAN_HALF_MIN <= tan_half_fovy <= TAN_HALF_MAX,
            self.aspect >= ASPECT_MIN,
            2 * self.znear <= self.zfar,
        ensures
            r.0 == proj_px(self.aspect as int, tan_half_fovy as int),
            r.1 == proj_py(tan_half_fovy as int),
            r.2 == proj_pz(self.znear as int, self.zfar as int),
            r.3 == proj_pw(self.znear as int, self.zfar as int),
            0 <= r.0 <= 10_000 * SCALE as int,
            0 <= r.1 <= 10_000 * SCALE as int,
            abs(r.2 as int) <= 10 * SCALE as int,
            abs(r.3 as int) <= 4 * FIX_BOUND as int,
    {
        let ghost s = SCALE as int;
        proof {
            lemma_tdiv_multiple(0, tan_half_fovy as int);
            lemma_tdiv_bound(s * s, tan_half_fovy as int, 100 * SCALE as int);
            vstd::arithmetic::div_mod::lemma_div_is_ordered(
                0,
                s * s,
                tan_half_fovy as int,
            );
        }
        let py: i64 = ((SCALE as i128 * SCALE as i128) / (tan_half_fovy as i128)) as i64;
        proof {
            lemma_tdiv_multiple(0, self.aspect as int);
            lemma_tdiv_bound(py as int * s, self.aspect as int, 10_000 * SCALE as int);
            vstd::arithmetic::div_mod::lemma_div_is_ordered(
                0,
                py as int * s,
                self.aspect as int,
            );
        }
        let px: i64 = ((py as i128 * SCALE as i128) / (self.aspect as i128)) as i64;
        let zn = self.znear;
        let zf = self.zfar;
        proof {
            lemma_tdiv_bound((zf as int + zn as int) * s, zf as int - zn as int, 3 * SCALE as int);
            assert(2 * (zn as int) * (zf as int) >= 0 && 2 * (zn as int) * (zf as int) <= (4 * (
            zn as int)) * (zf as int - zn as int)) by (nonlinear_arith)
                requires
                    0 < zn,
                    2 * (zn as int) <= zf as int,
            ;
            lemma_tdiv_bound(2 * (zn as int) * (zf as int), zf as int - zn as int, 4 * (zn as int));
            lemma_mul_abs_bound(
                2 * (zn as int),
                zf as int,
                2 * FIX_BOUND as int,
                FIX_BOUND as int,
            );
        }
        let pzq: i64 = (((zf as i128 + zn as i128) * (SCALE as i128)) / (zf as i128
            - zn as i128)) as i64;
        let pwq: i64 = ((2 * (zn as i128) * (zf as i128)) / (zf as i128 - zn as i128)) as i64;
        (px, py, -pzq, -pwq)
    }
}

/// Focal term of the projection's first row: `1 / (aspect * tan(fovy/2))`,
/// at scale.
pub open spec fn proj_px(aspect: int, tan_half: int) -> int {
    tdiv(proj_py(tan_half) * (SCALE as int), aspect)
}

/// Focal term of the projection's second row: `1 / tan(fovy/2)`, at scale.
pub open spec fn proj_py(tan_half: int) -> int {
    tdiv((SCALE as int) * (SCALE as int), tan_half)
}

/// Depth term of the projection's third row: `(zfar + znear) / (znear - zfar)`.
pub open spec fn proj_pz(znear: int, zfar: int) -> int {
    -tdiv((zfar + znear) * (SCALE as int), zfar - znear)
}

/// Affine depth term of the projection's third row:
/// `2 * zfar * znear / (znear - zfar)`.
pub open spec fn proj_pw(znear: int, zfar: int) -> int {
    -tdiv(2 * znear * zfar, zfar - znear)
}

/// Scales one row entry of the view matrix by a projection term.
fn scale_entry(p: i64, v: i64) -> (r: i64)
    requires
        abs(p as int) <= 10_000 * SCALE as int,
        abs(v as int) <= 6 * FIX_BOUND as int,
    ensures
        r == mul_scaled(p as int, v as int),
        abs(r as int) <= ENTRY_BOUND as int,
{
    proof {
        lemma_mul_abs_bound(p as int, v as int, 10_000 * SCALE as int, 6 * FIX_BOUND as int);
        assert((10_000 * SCALE as int) * (6 * FIX_BOUND as int) <= (ENTRY_BOUND as int) * (
        SCALE as int)) by (nonlinear_arith);
        lemma_tdiv_bound((p as int) * (v as int), SCALE as int, ENTRY_BOUND as int);
    }
    ((p as i128) * (v as i128) / (SCALE as i128)) as i64
}

/// Multiplies the perspective projection (given by its four nonzero terms)
/// with an affine view matrix: rows one and two are scaled by the focal
/// terms, row three mixes the view's depth row with the affine depth term,
/// and row four is the negated depth row of the view (the perspective
/// divide).
pub fn compose_projection(view: &Mat4, px: i64, py: i64, pz: i64, pw: i64) -> (r: Mat4)
    requires
        view.bounded(6 * FIX_BOUND as int),
        view.m30 == 0,
        view.m31 == 0,
        view.m32 == 0,
        view.m33 == SCALE,
        0 <= px <= 10_000 * SCALE as int,
        0 <= py <= 10_000 * SCALE as int,
        abs(pz as int) <= 10 * SCALE as int,
        abs(pw as int) <= 4 * FIX_BOUND as int,
    ensures
        r.m00 == mul_scaled(px as int, view.m00 as int),
        r.m01 == mul_scaled(px as int, view.m01 as int),
        r.m02 == mul_scaled(px as int, view.m02 as int),
        r.m03 == mul_scaled(px as int, view.m03 as int),
        r.m10 == mul_scaled(py as int, view.m10 as int),
        r.m11 == mul_scaled(py as int, view.m11 as int),
        r.m12 == mul_scaled(py as int, view.m12 as int),
        r.m13 == mul_scaled(py as int, view.m13 as int),
        r.m20 == mul_scaled(pz as int, view.m20 as int),
        r.m21 == mul_scaled(pz as int, view.m21 as int),
        r.m22 == mul_scaled(pz as int, view.m22 as int),
        r.m23 == tdiv((pz as int) * (view.m23 as int) + (pw as int) * (SCALE as int), SCALE as int),
        r.m30 == -(view.m20 as int),
        r.m31 == -(view.m21 as int),
        r.m32 == -(view.m22 as int),
        r.m33 == -(view.m23 as int),
        r.bounded(ENTRY_BOUND as int),
    {
    proof {
        lemma_mul_abs_bound(pz as int, view.m23 as int, 10 * SCALE as int, 6 * FIX_BOUND as int);
        assert((10 * SCALE as int) * (6 * FIX_BOUND as int) + (4 * FIX_BOUND as int) * (
        SCALE as int) <= (ENTRY_BOUND as int) * (SCALE as int)) by (nonlinear_arith);
        lemma_mul_abs_bound(pw as int, SCALE as int, 4 * FIX_BOUND as int, SCALE as int);
        lemma_tdiv_bound(
            (pz as int) * (view.m23 as int) + (pw as int) * (SCALE as int),
            SCALE as int,
            ENTRY_BOUND as int,
        );
    }
    let m23: i64 = (((pz as i128) * (view.m23 as i128) + (pw as i128) * (SCALE as i128)) / (
    SCALE as i128)) as i64;
    Mat4 {
        m00: scale_entry(px, view.m00),
        m01: scale_entry(px, view.m01),
        m02: scale_entry(px, view.m02),
        m03: scale_entry(px, view.m03),
        m10: scale_entry(py, view.m10),
        m11: scale_entry(py, view.m11),
        m12: scale_entry(py, view.m12),
        m13: scale_entry(py, view.m13),
        m20: scale_entry(pz, view.m20),
        m21: scale_entry(pz, view.m21),
        m22: scale_entry(pz, view.m22),
        m23,
        m30: -view.m20,
        m31: -view.m21,
        m32: -view.m22,
        m33: -view.m23,
    }
}

/// The depth-range correction as a named constant matrix: the identity,
/// except that the third row averages clip-space z with w, remapping depth
/// from [-1, 1] to [0, 1] as the target graphics interface expects.
pub fn depth_correction_matrix() -> (r: Mat4)
    ensures
        r.m00 == SCALE && r.m01 == 0 && r.m02 == 0 && r.m03 == 0,
        r.m10 == 0 && r.m11 == SCALE && r.m12 == 0 && r.m13 == 0,
        r.m20 == 0 && r.m21 == 0 && r.m22 == SCALE / 2 && r.m23 == SCALE / 2,
        r.m30 == 0 && r.m31 == 0 && r.m32 == 0 && r.m33 == SCALE,
{
    Mat4 {
        m00: SCALE,
        m01: 0,
        m02: 0,
        m03: 0,
        m10: 0,
        m11: SCALE,
        m12: 0,
        m13: 0,
        m20: 0,
        m21: 0,
        m22: SCALE / 2,
        m23: SCALE / 2,
        m30: 0,
        m31: 0,
        m32: 0,
        m33: SCALE,
    }
}

/// A row of the depth-range correction acting on a column: the half-scale
/// entries of its third row average the two lower entries of the column,
/// exactly.
pub proof fn lemma_depth_row_halves(a: int, b: int)
    ensures
        tdiv(((SCALE as int) / 2) * a + ((SCALE as int) / 2) * b, SCALE as int) == tdiv(a + b, 2),
{
    let h = (SCALE as int) / 2;
    assert(h * a + h * b == (a + b) * h) by (nonlinear_arith);
    lemma_tdiv_scale_cancel(a + b, h, 2);
}

/// Applies the depth-range correction to a composed matrix: multiplication
/// by the named constant of `depth_correction_matrix`, which leaves every
/// row but the third unchanged and replaces the third by the truncated
/// average of the third and fourth.
pub fn apply_depth_range(m: &Mat4) -> (r: Mat4)
    requires
        m.bounded(ENTRY_BOUND as int),
    ensures
        r.m00 == m.m00 && r.m01 == m.m01 && r.m02 == m.m02 && r.m03 == m.m03,
        r.m10 == m.m10 && r.m11 == m.m11 && r.m12 == m.m12 && r.m13 == m.m13,
        r.m20 == tdiv(m.m20 + m.m30, 2),
        r.m21 == tdiv(m.m21 + m.m31, 2),
        r.m22 == tdiv(m.m22 + m.m32, 2),
        r.m23 == tdiv(m.m23 + m.m33, 2),
        r.m30 == m.m30 && r.m31 == m.m31 && r.m32 == m.m32 && r.m33 == m.m33,
        // The same entries, written as the third row of the named constant
        // acting on the columns.
        r.m20 == tdiv(
            ((SCALE as int) / 2) * (m.m20 as int) + ((SCALE as int) / 2) * (m.m30 as int),
            SCALE as int,
        ),
        r.m23 == tdiv(
            ((SCALE as int) / 2) * (m.m23 as int) + ((SCALE as int) / 2) * (m.m33 as int),
            SCALE as int,
        ),
        r.bounded(ENTRY_BOUND as int),
{
    proof {
        lemma_depth_row_halves(m.m20 as int, m.m30 as int);
        lemma_depth_row_halves(m.m21 as int, m.m31 as int);
        lemma_depth_row_halves(m.m22 as int, m.m32 as int);
        lemma_depth_row_halves(m.m23 as int, m.m33 as int);
        lemma_tdiv_bound(m.m20 as int + m.m30 as int, 2, ENTRY_BOUND as int);
        lemma_tdiv_bound(m.m21 as int + m.m31 as int, 2, ENTRY_BOUND as int);
        lemma_tdiv_bound(m.m22 as int + m.m32 as int, 2, ENTRY_BOUND as int);
        lemma_tdiv_bound(m.m23 as int + m.m33 as int, 2, ENTRY_BOUND as int);
    }
    Mat4 {
        m00: m.m00,
        m01: m.m01,
        m02: m.m02,
        m03: m.m03,
        m10: m.m10,
        m11: m.m11,
        m12: m.m12,
        m13: m.m13,
        m20: (m.m20 + m.m30) / 2,
        m21: (m.m21 + m.m31) / 2,
        m22: (m.m22 + m.m32) / 2,
        m23: (m.m23 + m.m33) / 2,
        m30: m.m30,
        m31: m.m31,
        m32: m.m32,
        m33: m.m33,
    }
}

/// The full view-projection matrix of a camera, given the trigonometric
/// samples of its pitch and yaw and the tangent of half its field of view:
/// depth correction times perspective projection times look-at view.
pub open spec fn spec_view_proj(c: Camera, t: TrigSamples, tan_half: int) -> Mat4 {
    let px = proj_px(c.aspect as int, tan_half);
    let py = proj_py(tan_half);
    let pz = proj_pz(c.znear as int, c.zfar as int);
    let pw = proj_pw(c.znear as int, c.zfar as int);
    Mat4 {
        m00: mul_scaled(px, side_x(t)) as i64,
        m01: mul_scaled(px, 0) as i64,
        m02: mul_scaled(px, side_z(t)) as i64,
        m03: mul_scaled(px, view_m03(t, c.position)) as i64,
        m10: mul_scaled(py, up2_x(t)) as i64,
        m11: mul_scaled(py, up2_y(t)) as i64,
        m12: mul_scaled(py, up2_z(t)) as i64,
        m13: mul_scaled(py, view_m13(t, c.position)) as i64,
        m20: tdiv(mul_scaled(pz, -unit_fwd_x(t)) + unit_fwd_x(t), 2) as i64,
        m21: tdiv(mul_scaled(pz, -unit_fwd_y(t)) + unit_fwd_y(t), 2) as i64,
        m22: tdiv(mul_scaled(pz, -unit_fwd_z(t)) + unit_fwd_z(t), 2) as i64,
        m23: tdiv(
            tdiv(pz * view_m23(t, c.position) + pw * (SCALE as int), SCALE as int) - view_m23(
                t,
                c.position,
            ),
            2,
        ) as i64,
        m30: unit_fwd_x(t) as i64,
        m31: unit_fwd_y(t) as i64,
        m32: unit_fwd_z(t) as i64,
        m33: (-view_m23(t, c.position)) as i64,
    }
}

/// One row of a scaled matrix applied to a point taken homogeneous
/// (fourth coordinate one): the scaled linear combination.
pub open spec fn row_apply(a: int, b: int, c: int, d: int, p: Vec3) -> int {
    tdiv(a * (p.x as int) + b * (p.y as int) + c * (p.z as int) + d * (SCALE as int), SCALE as int)
}

impl Mat4 {
    /// Applies the matrix to a point (homogeneous fourth coordinate one),
    /// returning the four transformed coordinates, widened so no range is
    /// lost.
    pub fn apply_point(&self, p: Vec3) -> (r: (i128, i128, i128, i128))
        requires
            self.bounded(ENTRY_BOUND as int),
            p.bounded(FIX_BOUND as int),
        ensures
            r.0 == row_apply(self.m00 as int, self.m01 as int, self.m02 as int, self.m03 as int, p),
            r.1 == row_apply(self.m10 as int, self.m11 as int, self.m12 as int, self.m13 as int, p),
            r.2 == row_apply(self.m20 as int, self.m21 as int, self.m22 as int, self.m23 as int, p),
            r.3 == row_apply(self.m30 as int, self.m31 as int, self.m32 as int, self.m33 as int, p),
    {
        proof {
            lemma_mul_abs_bound(self.m00 as int, p.x as int, ENTRY_BOUND as int, FIX_BOUND as int);
            lemma_mul_abs_bound(self.m01 as int, p.y as int, ENTRY_BOUND as int, FIX_BOUND as int);
            lemma_mul_abs_bound(self.m02 as int, p.z as int, ENTRY_BOUND as int, FIX_BOUND as int);
            lemma_mul_abs_bound(self.m10 as int, p.x as int, ENTRY_BOUND as int, FIX_BOUND as int);
            lemma_mul_abs_bound(self.m11 as int, p.y as int, ENTRY_BOUND as int, FIX_BOUND as int);
            lemma_mul_abs_bound(self.m12 as int, p.z as int, ENTRY_BOUND as int, FIX_BOUND as int);
            lemma_mul_abs_bound(self.m20 as int, p.x as int, ENTRY_BOUND as int, FIX_BOUND as int);
            lemma_mul_abs_bound(self.m21 as int, p.y as int, ENTRY_BOUND as int, FIX_BOUND as int);
            lemma_mul_abs_bound(self.m22 as int, p.z as int, ENTRY_BOUND as int, FIX_BOUND as int);
            lemma_mul_abs_bound(self.m30 as int, p.x as int, ENTRY_BOUND as int, FIX_BOUND as int);
            lemma_mul_abs_bound(self.m31 as int, p.y as int, ENTRY_BOUND as int, FIX_BOUND as int);
            lemma_mul_abs_bound(self.m32 as int, p.z as int, ENTRY_BOUND as int, FIX_BOUND as int);
            lemma_mul_abs_bound(self.m03 as int, SCALE as int, ENTRY_BOUND as int, SCALE as int);
            lemma_mul_abs_bound(self.m13 as int, SCALE as int, ENTRY_BOUND as int, SCALE as int);
            lemma_mul_abs_bound(self.m23 as int, SCALE as int, ENTRY_BOUND as int, SCALE as int);
            lemma_mul_abs_bound(self.m33 as int, SCALE as int, ENTRY_BOUND as int, SCALE as int);
        }
        let sx: i128 = (self.m00 as i128) * (p.x as i128) + (self.m01 as i128) * (p.y as i128) + (
        self.m02 as i128) * (p.z as i128) + (self.m03 as i128) * (SCALE as i128);
        let sy: i128 = (self.m10 as i128) * (p.x as i128) + (self.m11 as i128) * (p.y as i128) + (
        self.m12 as i128) * (p.z as i128) + (self.m13 as i128) * (SCALE as i128);
        let sz: i128 = (self.m20 as i128) * (p.x as i128) + (self.m21 as i128) * (p.y as i128) + (
        self.m22 as i128) * (p.z as i128) + (self.m23 as i128) * (SCALE as i128);
        let sw: i128 = (self.m30 as i128) * (p.x as i128) + (self.m31 as i128) * (p.y as i128) + (
        self.m32 as i128) * (p.z as i128) + (self.m33 as i128) * (SCALE as i128);
        (sx / (SCALE as i128), sy / (SCALE as i128), sz / (SCALE as i128), sw / (SCALE as i128))
    }
}

/// The camera's own look target — the eye moved one forward vector — lands
/// in front of the camera: the view matrix's depth row maps it to a
/// negative eye-space z, and the view-projection's last row gives it a
/// positive clip-space w. This holds for every pose whose trigonometric
/// samples satisfy the Pythagorean identity up to `eps`.
pub proof fn lemma_look_target_in_front(c: Camera, t: TrigSamples, eps: int, target: Vec3)
    requires
        c.wf(),
        t.wf(),
        0 <= eps <= SCALE as int,
        abs(
            t.sin_pitch * t.sin_pitch + t.cos_pitch * t.cos_pitch - (SCALE as int) * (
            SCALE as int),
        ) <= eps,
        abs(
            t.sin_yaw * t.sin_yaw + t.cos_yaw * t.cos_yaw - (SCALE as int) * (SCALE as int),
        ) <= eps,
        target.x as int == c.position.x + forward_x(t),
        target.y as int == c.position.y + forward_y(t),
        target.z as int == c.position.z + forward_z(t),
    ensures
        row_apply(
            -unit_fwd_x(t),
            -unit_fwd_y(t),
            -unit_fwd_z(t),
            view_m23(t, c.position),
            target,
        ) < 0,
        row_apply(
            unit_fwd_x(t),
            unit_fwd_y(t),
            unit_fwd_z(t),
            -view_m23(t, c.position),
            target,
        ) > 0,
{
    let s = SCALE as int;
    let fx = forward_x(t);
    let fy = forward_y(t);
    let fz = forward_z(t);
    let nsq = fx * fx + fy * fy + fz * fz;
    lemma_forward_unit_length(t, eps);
    assert(nsq >= 999993999998);
    let n = fwd_norm(t);
    lemma_sqrt_floor_props(nsq);
    assert(n >= 500000) by (nonlinear_arith)
        requires
            0 <= n,
            nsq < (n + 1) * (n + 1),
            nsq >= 999993999998,
    ;
    assert(fy * fy >= 0 && fz * fz >= 0 && fx * fx >= 0) by (nonlinear_arith);
    assert(abs(fx) <= n) by (nonlinear_arith)
        requires
            fx * fx <= nsq,
            nsq < (n + 1) * (n + 1),
            n >= 0,
    ;
    assert(abs(fy) <= n) by (nonlinear_arith)
        requires
            fy * fy <= nsq,
            nsq < (n + 1) * (n + 1),
            n >= 0,
    ;
    assert(abs(fz) <= n) by (nonlinear_arith)
        requires
            fz * fz <= nsq,
            nsq < (n + 1) * (n + 1),
            n >= 0,
    ;
    let ux = unit_fwd_x(t);
    let uy = unit_fwd_y(t);
    let uz = unit_fwd_z(t);
    lemma_tdiv_remainder(fx * s, n);
    lemma_tdiv_remainder(fy * s, n);
    lemma_tdiv_remainder(fz * s, n);
    let rx = fx * s - n * ux;
    let ry = fy * s - n * uy;
    let rz = fz * s - n * uz;
    let tt = ux * fx + uy * fy + uz * fz;
    assert(n * (ux * fx) == s * (fx * fx) - rx * fx) by (nonlinear_arith)
        requires
            n * ux == fx * s - rx,
    ;
    assert(n * (uy * fy) == s * (fy * fy) - ry * fy) by (nonlinear_arith)
        requires
            n * uy == fy * s - ry,
    ;
    assert(n * (uz * fz) == s * (fz * fz) - rz * fz) by (nonlinear_arith)
        requires
            n * uz == fz * s - rz,
    ;
    assert(n * tt == n * (ux * fx) + n * (uy * fy) + n * (uz * fz)) by (nonlinear_arith)
        requires
            tt == ux * fx + uy * fy + uz * fz,
    ;
    assert(s * nsq == s * (fx * fx) + s * (fy * fy) + s * (fz * fz)) by (nonlinear_arith)
        requires
            nsq == fx * fx + fy * fy + fz * fz,
    ;
    assert(n * tt == s * nsq - (rx * fx + ry * fy + rz * fz));
    lemma_mul_abs_bound(rx, fx, n, n);
    lemma_mul_abs_bound(ry, fy, n, n);
    lemma_mul_abs_bound(rz, fz, n, n);
    assert(n * tt >= (n * n) * (s - 3)) by (nonlinear_arith)
        requires
            n * tt == s * nsq - (rx * fx + ry * fy + rz * fz),
            nsq >= n * n,
            rx * fx + ry * fy + rz * fz <= 3 * (n * n),
            s == SCALE as int,
    ;
    assert(tt >= n * (s - 3)) by (nonlinear_arith)
        requires
            n * tt >= (n * n) * (s - 3),
            n >= 1,
    ;
    assert(tt >= 499998500000) by (nonlinear_arith)
        requires
            tt >= n * (s - 3),
            n >= 500000,
            s == SCALE as int,
    ;
    // The translation entry's own remainder.
    let ex = c.position.x as int;
    let ey = c.position.y as int;
    let ez = c.position.z as int;
    let dd = ux * ex + uy * ey + uz * ez;
    let m23v = view_m23(t, c.position);
    lemma_tdiv_remainder(dd, s);
    let rho = dd - s * m23v;
    // The two row arguments collapse to -(tt + rho) and tt + rho.
    let zarg = (-ux) * (target.x as int) + (-uy) * (target.y as int) + (-uz) * (target.z as int)
        + m23v * s;
    let warg = ux * (target.x as int) + uy * (target.y as int) + uz * (target.z as int) + (-m23v)
        * s;
    assert(zarg == -(tt + rho) && warg == tt + rho) by (nonlinear_arith)
        requires
            zarg == (-ux) * (ex + fx) + (-uy) * (ey + fy) + (-uz) * (ez + fz) + m23v * s,
            warg == ux * (ex + fx) + uy * (ey + fy) + uz * (ez + fz) + (-m23v) * s,
            tt == ux * fx + uy * fy + uz * fz,
            rho == (ux * ex + uy * ey + uz * ez) - s * m23v,
    ;
    assert(tt + rho >= s);
    lemma_tdiv_neg(tt + rho, s);
    lemma_tdiv_multiple(1, s);
    vstd::arithmetic::div_mod::lemma_div_is_ordered(s, tt + rho, s);
    assert(tdiv(tt + rho, s) >= 1);
    assert(tdiv(zarg, s) <= -1);
}

/// GPU-visible snapshot of the combined view-projection matrix, regenerated
/// from the camera every frame.
#[derive(Clone, Copy, Debug, PartialEq, Eq, Structural)]
pub struct CameraUniform {
    pub view_proj: Mat4,
}

impl Camera {
    /// Builds `depth_correction x projection x view` for the current pose:
    /// the matrix the whole frame is drawn with.
    #[verifier::rlimit(80)]
    pub fn build_view_projection_matrix(&self, t: &TrigSamples, tan_half_fovy: i64) -> (r: Mat4)
        requires
            self.wf(),
            t.wf(),
            !(forward_x(*t) == 0 && forward_y(*t) == 0 && forward_z(*t) == 0),
            !(side_x_raw(*t) == 0 && side_z_raw(*t) == 0),
            TAN_HALF_MIN <= tan_half_fovy <= TAN_HALF_MAX,
            self.aspect >= ASPECT_MIN,
            2 * self.znear <= self.zfar,
        ensures
            r == spec_view_proj(*self, *t, tan_half_fovy as int),
    {
        let view = self.build_view_matrix(t);
        let parts = self.perspective_parts(tan_half_fovy);
        let pv = compose_projection(&view, parts.0, parts.1, parts.2, parts.3);
        let r = apply_depth_range(&pv);
        r
    }

    /// Regenerates the camera uniform from the current pose; recomputed,
    /// never incrementally updated.
    pub fn get_uniform(&self, t: &TrigSamples, tan_half_fovy: i64) -> (r: CameraUniform)
        requires
            self.wf(),
            t.wf(),
            !(forward_x(*t) == 0 && forward_y(*t) == 0 && forward_z(*t) == 0),
            !(side_x_raw(*t) == 0 && side_z_raw(*t) == 0),
            TAN_HALF_MIN <= tan_half_fovy <= TAN_HALF_MAX,
            self.aspect >= ASPECT_MIN,
            2 * self.znear <= self.zfar,
        ensures
            r.view_proj == spec_view_proj(*self, *t, tan_half_fovy as int),
    {
        CameraUniform { view_proj: self.build_view_projection_matrix(t, tan_half_fovy) }
    }
}

} // verus!
