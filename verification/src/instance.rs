//! The instanced grid of model transforms.
//!
//! A fixed square grid of instances is generated once at startup: each
//! cell's translation is its grid position minus a centering displacement,
//! and its rotation is a fixed angle about the axis pointing along its own
//! translation (an arbitrary vertical axis at the degenerate center cell,
//! where that direction is undefined). Each instance flattens to a model
//! matrix — translation times rotation — for upload; the flattened form is
//! a pure function of the instance.

use vstd::prelude::*;
use crate::fixed::{
    abs, lemma_mul_abs_bound, lemma_sqrt_floor_pos, lemma_tdiv_bound, lemma_tdiv_multiple,
    mul_scaled, sqrt_floor, tdiv, FIX_BOUND, SCALE,
};
use crate::matrix::Mat4;
use crate::vec3::Vec3;

verus! {

/// Largest accepted grid dimension.
pub const DIM_BOUND: u32 = 1024;

/// Largest accepted grid spacing, in scaled length units.
pub const SPACING_BOUND: i64 = 400_000_000;

/// A rotation as a scaled quaternion.
#[derive(Clone, Copy, Debug, PartialEq, Eq, Structural)]
pub struct Quat {
    pub x: i64,
    pub y: i64,
    pub z: i64,
    pub w: i64,
}

impl Quat {
    /// Components of a unit quaternion stay within one scaled unit.
    pub open spec fn wf(self) -> bool {
        abs(self.x as int) <= SCALE as int && abs(self.y as int) <= SCALE as int && abs(
            self.z as int,
        ) <= SCALE as int && abs(self.w as int) <= SCALE as int
    }
}

/// One repeated copy of the base mesh: a translation and a rotation,
/// immutable once the grid is built.
#[derive(Clone, Copy, Debug, PartialEq, Eq, Structural)]
pub struct Instance {
    pub translation: Vec3,
    pub rotation: Quat,
}

/// Centering displacement of a grid: half the span `(dim - 1) * spacing`.
pub open spec fn grid_disp(dim: int, spacing: int) -> int {
    tdiv((dim - 1) * spacing, 2)
}

/// x-translation of the cell with flat index `k` (row `k / dim`).
pub open spec fn grid_tx(dim: int, spacing: int, k: int) -> int {
    (k / dim) * spacing - grid_disp(dim, spacing)
}

/// z-translation of the cell with flat index `k` (column `k % dim`).
pub open spec fn grid_tz(dim: int, spacing: int, k: int) -> int {
    (k % dim) * spacing - grid_disp(dim, spacing)
}

/// x-component of a cell's rotation axis: its normalized translation, or
/// the vertical axis for the degenerate center cell.
pub open spec fn spec_axis_x(tx: int, tz: int) -> int {
    if tx == 0 && tz == 0 {
        0
    } else {
        tdiv(tx * (SCALE as int), sqrt_floor(tx * tx + tz * tz))
    }
}

/// y-component of a cell's rotation axis: zero, except at the degenerate
/// center cell, which falls back to the vertical axis.
pub open spec fn spec_axis_y(tx: int, tz: int) -> int {
    if tx == 0 && tz == 0 {
        SCALE as int
    } else {
        0
    }
}

/// z-component of a cell's rotation axis.
pub open spec fn spec_axis_z(tx: int, tz: int) -> int {
    if tx == 0 && tz == 0 {
        0
    } else {
        tdiv(tz * (SCALE as int), sqrt_floor(tx * tx + tz * tz))
    }
}

/// The instance of the cell with flat index `k`: its translation is the
/// grid position minus the centering displacement, its rotation the fixed
/// angle (given by the sine and cosine of its half) about the cell's axis.
pub open spec fn spec_instance(dim: int, spacing: int, sh: int, ch: int, k: int) -> Instance {
    let tx = grid_tx(dim, spacing, k);
    let tz = grid_tz(dim, spacing, k);
    Instance {
        translation: Vec3 { x: tx as i64, y: 0, z: tz as i64 },
        rotation: Quat {
            x: mul_scaled(spec_axis_x(tx, tz), sh) as i64,
            y: mul_scaled(spec_axis_y(tx, tz), sh) as i64,
            z: mul_scaled(spec_axis_z(tx, tz), sh) as i64,
            w: ch as i64,
        },
    }
}

/// Builds the full square grid: `dim * dim` instances, in row-major order
/// of their cells, each exactly the instance `spec_instance` gives its
/// index.
pub fn build_instance_grid(dim: u32, spacing: i64, sin_half: i64, cos_half: i64) -> (r: Vec<
    Instance,
>)
    requires
        1 <= dim <= DIM_BOUND,
        0 < spacing <= SPACING_BOUND,
        abs(sin_half as int) <= SCALE as int,
        abs(cos_half as int) <= SCALE as int,
    ensures
        r@.len() == dim * dim,
        forall|k: int|
            0 <= k < dim * dim ==> r@[k] == spec_instance(
                dim as int,
                spacing as int,
                sin_half as int,
                cos_half as int,
                k,
            ),
        forall|k: int| 0 <= k < dim * dim ==> (#[trigger] r@[k]).wf(),
{
    let mut out: Vec<Instance> = Vec::new();
    proof {
        assert(0 <= ((dim as int) - 1) * (spacing as int) <= (DIM_BOUND as int) * (
        SPACING_BOUND as int)) by (nonlinear_arith)
            requires
                1 <= dim <= DIM_BOUND,
                0 < spacing <= SPACING_BOUND,
        ;
        assert((dim as int) * (dim as int) <= (DIM_BOUND as int) * (DIM_BOUND as int)) by (
        nonlinear_arith)
            requires
                dim <= DIM_BOUND,
        ;
    }
    let disp: i64 = ((dim as i64) - 1) * spacing / 2;
    let mut x: u32 = 0;
    while x < dim
        invariant
            0 <= x <= dim,
            1 <= dim <= DIM_BOUND,
            0 < spacing <= SPACING_BOUND,
            abs(sin_half as int) <= SCALE as int,
            abs(cos_half as int) <= SCALE as int,
            disp == grid_disp(dim as int, spacing as int),
            out@.len() == x * dim,
            forall|k: int|
                0 <= k < out@.len() ==> out@[k] == spec_instance(
                    dim as int,
                    spacing as int,
                    sin_half as int,
                    cos_half as int,
                    k,
                ),
            forall|k: int| 0 <= k < out@.len() ==> (#[trigger] out@[k]).wf(),
        decreases dim - x,
    {
        let mut z: u32 = 0;
        while z < dim
            invariant
                0 <= z <= dim,
                0 <= x < dim,
                1 <= dim <= DIM_BOUND,
                0 < spacing <= SPACING_BOUND,
                abs(sin_half as int) <= SCALE as int,
                abs(cos_half as int) <= SCALE as int,
                disp == grid_disp(dim as int, spacing as int),
                out@.len() == x * dim + z,
                forall|k: int|
                    0 <= k < out@.len() ==> out@[k] == spec_instance(
                        dim as int,
                        spacing as int,
                        sin_half as int,
                        cos_half as int,
                        k,
                    ),
                forall|k: int| 0 <= k < out@.len() ==> (#[trigger] out@[k]).wf(),
            decreases dim - z,
        {
            let inst = make_instance(dim, spacing, disp, x, z, sin_half, cos_half);
            proof {
                assert(out@.len() < (DIM_BOUND as int) * (DIM_BOUND as int) + DIM_BOUND as int)
                    by (nonlinear_arith)
                    requires
                        out@.len() == x as int * dim as int + z as int,
                        0 <= x < dim,
                        0 <= z < dim,
                        dim <= DIM_BOUND,
                ;
            }
            out.push(inst);
            z = z + 1;
        }
        proof {
            assert(x as int * dim as int + dim as int == (x as int + 1) * dim as int) by (
            nonlinear_arith);
        }
        x = x + 1;
    }
    proof {
        assert(out@.len() == dim as int * dim as int);
    }
    out
}

/// Builds the one instance of cell `(x, z)`.
fn make_instance(dim: u32, spacing: i64, disp: i64, x: u32, z: u32, sin_half: i64, cos_half: i64)
    -> (r: Instance)
    requires
        1 <= dim <= DIM_BOUND,
        0 < spacing <= SPACING_BOUND,
        0 <= x < dim,
        0 <= z < dim,
        disp == grid_disp(dim as int, spacing as int),
        abs(sin_half as int) <= SCALE as int,
        abs(cos_half as int) <= SCALE as int,
    ensures
        r == spec_instance(
            dim as int,
            spacing as int,
            sin_half as int,
            cos_half as int,
            x as int * dim as int + z as int,
        ),
        r.wf(),
{
    proof {
        let k = x as int * dim as int + z as int;
        vstd::arithmetic::div_mod::lemma_fundamental_div_mod_converse(
            k,
            dim as int,
            x as int,
            z as int,
        );
        assert(abs((dim as int - 1) * spacing as int) <= (DIM_BOUND as int) * (
        SPACING_BOUND as int)) by (nonlinear_arith)
            requires
                1 <= dim <= DIM_BOUND,
                0 < spacing <= SPACING_BOUND,
        ;
        lemma_tdiv_bound(
            (dim as int - 1) * spacing as int,
            2,
            (DIM_BOUND as int) * (SPACING_BOUND as int) / 2,
        );
        assert(abs(x as int * spacing as int) <= (DIM_BOUND as int) * (SPACING_BOUND as int)) by (
        nonlinear_arith)
            requires
                0 <= x < dim <= DIM_BOUND,
                0 < spacing <= SPACING_BOUND,
        ;
        assert(abs(z as int * spacing as int) <= (DIM_BOUND as int) * (SPACING_BOUND as int)) by (
        nonlinear_arith)
            requires
                0 <= z < dim <= DIM_BOUND,
                0 < spacing <= SPACING_BOUND,
        ;
    }
    let tx: i64 = (x as i64) * spacing - disp;
    let tz: i64 = (z as i64) * spacing - disp;
    let translation = Vec3 { x: tx, y: 0, z: tz };
    let axis: Vec3 = if tx == 0 && tz == 0 {
        Vec3 { x: 0, y: SCALE, z: 0 }
    } else {
        proof {
            assert((translation.y as int) * (translation.y as int) == 0) by (nonlinear_arith)
                requires
                    translation.y == 0i64,
            ;
            assert((tx as int) * (tx as int) >= 1 || (tz as int) * (tz as int) >= 1) by (
            nonlinear_arith)
                requires
                    !(tx == 0i64 && tz == 0i64),
            ;
            assert((tx as int) * (tx as int) >= 0) by (nonlinear_arith);
            assert((tz as int) * (tz as int) >= 0) by (nonlinear_arith);
            lemma_sqrt_floor_pos((tx as int) * (tx as int) + (tz as int) * (tz as int));
            lemma_tdiv_multiple(0, sqrt_floor((tx as int) * (tx as int) + (tz as int) * (tz as int)));
        }
        translation.normalize()
    };
    proof {
        lemma_mul_abs_bound(axis.x as int, sin_half as int, SCALE as int, SCALE as int);
        lemma_mul_abs_bound(axis.y as int, sin_half as int, SCALE as int, SCALE as int);
        lemma_mul_abs_bound(axis.z as int, sin_half as int, SCALE as int, SCALE as int);
        lemma_tdiv_bound((axis.x as int) * (sin_half as int), SCALE as int, SCALE as int);
        lemma_tdiv_bound((axis.y as int) * (sin_half as int), SCALE as int, SCALE as int);
        lemma_tdiv_bound((axis.z as int) * (sin_half as int), SCALE as int, SCALE as int);
    }
    let rotation = Quat {
        x: crate::fixed::scale_mul(axis.x, sin_half),
        y: crate::fixed::scale_mul(axis.y, sin_half),
        z: crate::fixed::scale_mul(axis.z, sin_half),
        w: cos_half,
    };
    Instance { translation, rotation }
}

// Rotation matrix entries of a scaled quaternion, row-major: the standard
// unit-quaternion rotation formula, each product brought back to scale.

/// Entry (0,0): `1 - 2 * (y*y + z*z)`.
pub open spec fn rot00(q: Quat) -> int {
    SCALE as int - tdiv(2 * ((q.y as int) * (q.y as int) + (q.z as int) * (q.z as int)), SCALE as int)
}

/// Entry (0,1): `2 * (x*y - z*w)`.
pub open spec fn rot01(q: Quat) -> int {
    tdiv(2 * ((q.x as int) * (q.y as int) - (q.z as int) * (q.w as int)), SCALE as int)
}

/// Entry (0,2): `2 * (x*z + y*w)`.
pub open spec fn rot02(q: Quat) -> int {
    tdiv(2 * ((q.x as int) * (q.z as int) + (q.y as int) * (q.w as int)), SCALE as int)
}

/// Entry (1,0): `2 * (x*y + z*w)`.
pub open spec fn rot10(q: Quat) -> int {
    tdiv(2 * ((q.x as int) * (q.y as int) + (q.z as int) * (q.w as int)), SCALE as int)
}

/// Entry (1,1): `1 - 2 * (x*x + z*z)`.
pub open spec fn rot11(q: Quat) -> int {
    SCALE as int - tdiv(2 * ((q.x as int) * (q.x as int) + (q.z as int) * (q.z as int)), SCALE as int)
}

/// Entry (1,2): `2 * (y*z - x*w)`.
pub open spec fn rot12(q: Quat) -> int {
    tdiv(2 * ((q.y as int) * (q.z as int) - (q.x as int) * (q.w as int)), SCALE as int)
}

/// Entry (2,0): `2 * (x*z - y*w)`.
pub open spec fn rot20(q: Quat) -> int {
    tdiv(2 * ((q.x as int) * (q.z as int) - (q.y as int) * (q.w as int)), SCALE as int)
}

/// Entry (2,1): `2 * (y*z + x*w)`.
pub open spec fn rot21(q: Quat) -> int {
    tdiv(2 * ((q.y as int) * (q.z as int) + (q.x as int) * (q.w as int)), SCALE as int)
}

/// Entry (2,2): `1 - 2 * (x*x + y*y)`.
pub open spec fn rot22(q: Quat) -> int {
    SCALE as int - tdiv(2 * ((q.x as int) * (q.x as int) + (q.y as int) * (q.y as int)), SCALE as int)
}

impl Instance {
    /// Validity: bounded translation, unit-bounded rotation components.
    pub open spec fn wf(self) -> bool {
        self.translation.bounded(FIX_BOUND as int) && self.rotation.wf()
    }

    /// Flattens the instance to its model matrix — translation matrix
    /// times rotation matrix, so the copy rotates in place and then moves
    /// to its cell. A pure function of the instance: the result is fully
    /// determined by the translation and rotation alone.
    pub fn to_model_matrix(&self) -> (r: Mat4)
        requires
            self.wf(),
        ensures
            r.m00 == rot00(self.rotation),
            r.m01 == rot01(self.rotation),
            r.m02 == rot02(self.rotation),
            r.m03 == self.translation.x,
            r.m10 == rot10(self.rotation),
            r.m11 == rot11(self.rotation),
            r.m12 == rot12(self.rotation),
            r.m13 == self.translation.y,
            r.m20 == rot20(self.rotation),
            r.m21 == rot21(self.rotation),
            r.m22 == rot22(self.rotation),
            r.m23 == self.translation.z,
            r.m30 == 0,
            r.m31 == 0,
            r.m32 == 0,
            r.m33 == SCALE,
    {
        let q = self.rotation;
        proof {
            lemma_mul_abs_bound(q.x as int, q.x as int, SCALE as int, SCALE as int);
            lemma_mul_abs_bound(q.x as int, q.y as int, SCALE as int, SCALE as int);
            lemma_mul_abs_bound(q.x as int, q.z as int, SCALE as int, SCALE as int);
            lemma_mul_abs_bound(q.x as int, q.w as int, SCALE as int, SCALE as int);
            lemma_mul_abs_bound(q.y as int, q.y as int, SCALE as int, SCALE as int);
            lemma_mul_abs_bound(q.y as int, q.z as int, SCALE as int, SCALE as int);
            lemma_mul_abs_bound(q.y as int, q.w as int, SCALE as int, SCALE as int);
            lemma_mul_abs_bound(q.z as int, q.z as int, SCALE as int, SCALE as int);
            lemma_mul_abs_bound(q.z as int, q.w as int, SCALE as int, SCALE as int);
        }
        let r00: i64 = SCALE - 2 * (q.y * q.y + q.z * q.z) / SCALE;
        let r01: i64 = 2 * (q.x * q.y - q.z * q.w) / SCALE;
        let r02: i64 = 2 * (q.x * q.z + q.y * q.w) / SCALE;
        let r10: i64 = 2 * (q.x * q.y + q.z * q.w) / SCALE;
        let r11: i64 = SCALE - 2 * (q.x * q.x + q.z * q.z) / SCALE;
        let r12: i64 = 2 * (q.y * q.z - q.x * q.w) / SCALE;
        let r20: i64 = 2 * (q.x * q.z - q.y * q.w) / SCALE;
        let r21: i64 = 2 * (q.y * q.z + q.x * q.w) / SCALE;
        let r22: i64 = SCALE - 2 * (q.x * q.x + q.y * q.y) / SCALE;
        Mat4 {
            m00: r00,
            m01: r01,
            m02: r02,
            m03: self.translation.x,
            m10: r10,
            m11: r11,
            m12: r12,
            m13: self.translation.y,
            m20: r20,
            m21: r21,
            m22: r22,
            m23: self.translation.z,
            m30: 0,
            m31: 0,
            m32: 0,
            m33: SCALE,
        }
    }
}

} // verus!
