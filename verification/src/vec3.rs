//! Fixed-point 3-vectors.
//!
//! Components are scaled `i64` values (see [`crate::fixed`]). Products of
//! components are divided by `SCALE` once, so a product of two vectors at
//! scale stays at scale.

use vstd::prelude::*;
use crate::fixed::{
    abs, lemma_mul_abs_bound, lemma_sqrt_floor_props, lemma_tdiv_bound, isqrt, mul_scaled,
    scale_mul, sqrt_floor, tdiv, FIX_BOUND, SCALE,
};

verus! {

/// A 3-vector of scaled fixed-point components.
#[derive(Clone, Copy, Debug, PartialEq, Eq, Structural)]
pub struct Vec3 {
    pub x: i64,
    pub y: i64,
    pub z: i64,
}

impl Vec3 {
    /// All three components have magnitude at most `m`.
    pub open spec fn bounded(self, m: int) -> bool {
        abs(self.x as int) <= m && abs(self.y as int) <= m && abs(self.z as int) <= m
    }

    /// Sum of the squares of the components (an unscaled square).
    pub open spec fn norm_sq(self) -> int {
        (self.x as int) * (self.x as int) + (self.y as int) * (self.y as int) + (self.z as int)
            * (self.z as int)
    }

    /// The zero vector.
    pub open spec fn is_zero(self) -> bool {
        self.x == 0 && self.y == 0 && self.z == 0
    }

    /// Componentwise sum.
    pub fn add(self, other: Vec3) -> (r: Vec3)
        requires
            i64::MIN <= self.x + other.x <= i64::MAX,
            i64::MIN <= self.y + other.y <= i64::MAX,
            i64::MIN <= self.z + other.z <= i64::MAX,
        ensures
            r.x == self.x + other.x,
            r.y == self.y + other.y,
            r.z == self.z + other.z,
    {
        Vec3 { x: self.x + other.x, y: self.y + other.y, z: self.z + other.z }
    }

    /// Componentwise difference.
    pub fn sub(self, other: Vec3) -> (r: Vec3)
        requires
            i64::MIN <= self.x - other.x <= i64::MAX,
            i64::MIN <= self.y - other.y <= i64::MAX,
            i64::MIN <= self.z - other.z <= i64::MAX,
        ensures
            r.x == self.x - other.x,
            r.y == self.y - other.y,
            r.z == self.z - other.z,
    {
        Vec3 { x: self.x - other.x, y: self.y - other.y, z: self.z - other.z }
    }

    /// Multiplies by a scaled scalar: each component becomes
    /// `mul_scaled(component, s)`.
    pub fn scale(self, s: i64) -> (r: Vec3)
        requires
            self.bounded(FIX_BOUND as int),
            -FIX_BOUND <= s <= FIX_BOUND,
        ensures
            r.x == mul_scaled(self.x as int, s as int),
            r.y == mul_scaled(self.y as int, s as int),
            r.z == mul_scaled(self.z as int, s as int),
    {
        Vec3 { x: scale_mul(self.x, s), y: scale_mul(self.y, s), z: scale_mul(self.z, s) }
    }

    /// Scaled dot product: `(x*x' + y*y' + z*z') / SCALE`, truncated.
    pub open spec fn dot_scaled(self, other: Vec3) -> int {
        tdiv(
            (self.x as int) * (other.x as int) + (self.y as int) * (other.y as int) + (
            self.z as int) * (other.z as int),
            SCALE as int,
        )
    }

    /// Computes the scaled dot product with a 128-bit intermediate sum.
    pub fn dot(self, other: Vec3) -> (r: i64)
        requires
            self.bounded(FIX_BOUND as int),
            other.bounded(FIX_BOUND as int),
        ensures
            r == self.dot_scaled(other),
    {
        proof {
            lemma_mul_abs_bound(
                self.x as int,
                other.x as int,
                FIX_BOUND as int,
                FIX_BOUND as int,
            );
            lemma_mul_abs_bound(
                self.y as int,
                other.y as int,
                FIX_BOUND as int,
                FIX_BOUND as int,
            );
            lemma_mul_abs_bound(
                self.z as int,
                other.z as int,
                FIX_BOUND as int,
                FIX_BOUND as int,
            );
            lemma_tdiv_bound(
                (self.x as int) * (other.x as int) + (self.y as int) * (other.y as int) + (
                self.z as int) * (other.z as int),
                SCALE as int,
                3 * (FIX_BOUND as int) * (FIX_BOUND as int) / (SCALE as int),
            );
        }
        let sum: i128 = (self.x as i128) * (other.x as i128) + (self.y as i128) * (
        other.y as i128) + (self.z as i128) * (other.z as i128);
        (sum / (SCALE as i128)) as i64
    }

    /// x-component of the scaled cross product.
    pub open spec fn cross_x(self, other: Vec3) -> int {
        tdiv(
            (self.y as int) * (other.z as int) - (self.z as int) * (other.y as int),
            SCALE as int,
        )
    }

    /// y-component of the scaled cross product.
    pub open spec fn cross_y(self, other: Vec3) -> int {
        tdiv(
            (self.z as int) * (other.x as int) - (self.x as int) * (other.z as int),
            SCALE as int,
        )
    }

    /// z-component of the scaled cross product.
    pub open spec fn cross_z(self, other: Vec3) -> int {
        tdiv(
            (self.x as int) * (other.y as int) - (self.y as int) * (other.x as int),
            SCALE as int,
        )
    }

    /// Scaled cross product: each component is the usual determinant,
    /// divided by `SCALE` once.
    pub fn cross(self, other: Vec3) -> (r: Vec3)
        requires
            self.bounded(FIX_BOUND as int),
            other.bounded(FIX_BOUND as int),
        ensures
            r.x == self.cross_x(other),
            r.y == self.cross_y(other),
            r.z == self.cross_z(other),
    {
        proof {
            lemma_mul_abs_bound(self.y as int, other.z as int, FIX_BOUND as int, FIX_BOUND as int);
            lemma_mul_abs_bound(self.z as int, other.y as int, FIX_BOUND as int, FIX_BOUND as int);
            lemma_mul_abs_bound(self.z as int, other.x as int, FIX_BOUND as int, FIX_BOUND as int);
            lemma_mul_abs_bound(self.x as int, other.z as int, FIX_BOUND as int, FIX_BOUND as int);
            lemma_mul_abs_bound(self.x as int, other.y as int, FIX_BOUND as int, FIX_BOUND as int);
            lemma_mul_abs_bound(self.y as int, other.x as int, FIX_BOUND as int, FIX_BOUND as int);
            lemma_tdiv_bound(
                (self.y as int) * (other.z as int) - (self.z as int) * (other.y as int),
                SCALE as int,
                2 * (FIX_BOUND as int) * (FIX_BOUND as int) / (SCALE as int),
            );
            lemma_tdiv_bound(
                (self.z as int) * (other.x as int) - (self.x as int) * (other.z as int),
                SCALE as int,
                2 * (FIX_BOUND as int) * (FIX_BOUND as int) / (SCALE as int),
            );
            lemma_tdiv_bound(
                (self.x as int) * (other.y as int) - (self.y as int) * (other.x as int),
                SCALE as int,
                2 * (FIX_BOUND as int) * (FIX_BOUND as int) / (SCALE as int),
            );
        }
        let cx: i128 = (self.y as i128) * (other.z as i128) - (self.z as i128) * (other.y as i128);
        let cy: i128 = (self.z as i128) * (other.x as i128) - (self.x as i128) * (other.z as i128);
        let cz: i128 = (self.x as i128) * (other.y as i128) - (self.y as i128) * (other.x as i128);
        Vec3 {
            x: (cx / (SCALE as i128)) as i64,
            y: (cy / (SCALE as i128)) as i64,
            z: (cz / (SCALE as i128)) as i64,
        }
    }

    /// Euclidean length, rounded down: `sqrt_floor(norm_sq)`.
    pub fn norm(self) -> (r: i64)
        requires
            self.bounded(FIX_BOUND as int),
        ensures
            r == sqrt_floor(self.norm_sq()),
            0 <= r <= 2 * FIX_BOUND,
    {
        proof {
            lemma_mul_abs_bound(self.x as int, self.x as int, FIX_BOUND as int, FIX_BOUND as int);
            lemma_mul_abs_bound(self.y as int, self.y as int, FIX_BOUND as int, FIX_BOUND as int);
            lemma_mul_abs_bound(self.z as int, self.z as int, FIX_BOUND as int, FIX_BOUND as int);
            assert((self.x as int) * (self.x as int) >= 0) by (nonlinear_arith);
            assert((self.y as int) * (self.y as int) >= 0) by (nonlinear_arith);
            assert((self.z as int) * (self.z as int) >= 0) by (nonlinear_arith);
        }
        let sum: i128 = (self.x as i128) * (self.x as i128) + (self.y as i128) * (
        self.y as i128) + (self.z as i128) * (self.z as i128);
        let r: u64 = isqrt(sum as u128);
        proof {
            assert(r <= 2 * FIX_BOUND) by (nonlinear_arith)
                requires
                    (r as int) * (r as int) <= self.norm_sq(),
                    self.norm_sq() <= 3 * (FIX_BOUND as int) * (FIX_BOUND as int),
            ;
        }
        r as i64
    }

    /// What each component of the normalized vector is: the component,
    /// brought to full scale and divided by the floor length.
    pub open spec fn normalized_component(self, c: int) -> int {
        tdiv(c * (SCALE as int), sqrt_floor(self.norm_sq()))
    }

    /// Scales the vector to unit length (at scale `SCALE`), truncating each
    /// component toward zero. The result's components never exceed `SCALE`
    /// in magnitude.
    pub fn normalize(self) -> (r: Vec3)
        requires
            self.bounded(FIX_BOUND as int),
            !self.is_zero(),
        ensures
            r.x == self.normalized_component(self.x as int),
            r.y == self.normalized_component(self.y as int),
            r.z == self.normalized_component(self.z as int),
            r.bounded(SCALE as int),
    {
        let n: i64 = self.norm();
        proof {
            assert((self.x as int) * (self.x as int) >= 0) by (nonlinear_arith);
            assert((self.y as int) * (self.y as int) >= 0) by (nonlinear_arith);
            assert((self.z as int) * (self.z as int) >= 0) by (nonlinear_arith);
            lemma_sqrt_floor_props(self.norm_sq());
            assert((self.x as int) * (self.x as int) >= 1 || (self.y as int) * (self.y as int) >= 1
                || (self.z as int) * (self.z as int) >= 1) by (nonlinear_arith)
                requires
                    !(self.x == 0 && self.y == 0 && self.z == 0),
            ;
            if n == 0 {
                assert(((n as int) + 1) * ((n as int) + 1) == 1) by (nonlinear_arith)
                    requires
                        n == 0i64,
                ;
                assert(false);
            }
            lemma_normalize_component_bound(self.x as int, self.norm_sq(), n as int);
            lemma_normalize_component_bound(self.y as int, self.norm_sq(), n as int);
            lemma_normalize_component_bound(self.z as int, self.norm_sq(), n as int);
        }
        Vec3 {
            x: ((self.x as i128 * SCALE as i128) / (n as i128)) as i64,
            y: ((self.y as i128 * SCALE as i128) / (n as i128)) as i64,
            z: ((self.z as i128 * SCALE as i128) / (n as i128)) as i64,
        }
    }
}

/// Bound on a scaled dot product of two bounded vectors:
/// `|dot_scaled| <= 3 * ma * mb / SCALE` (with `ma * mb` a multiple of
/// `SCALE`, which the callers arrange).
pub proof fn lemma_dot_scaled_bound(a: Vec3, b: Vec3, ma: int, mb: int)
    requires
        a.bounded(ma),
        b.bounded(mb),
        0 <= ma,
        0 <= mb,
        (ma * mb) % (SCALE as int) == 0,
    ensures
        abs(a.dot_scaled(b)) <= 3 * ((ma * mb) / (SCALE as int)),
{
    lemma_mul_abs_bound(a.x as int, b.x as int, ma, mb);
    lemma_mul_abs_bound(a.y as int, b.y as int, ma, mb);
    lemma_mul_abs_bound(a.z as int, b.z as int, ma, mb);
    assert(ma * mb >= 0) by (nonlinear_arith)
        requires
            0 <= ma,
            0 <= mb,
    ;
    vstd::arithmetic::div_mod::lemma_fundamental_div_mod(ma * mb, SCALE as int);
    vstd::arithmetic::div_mod::lemma_div_is_ordered(0, ma * mb, SCALE as int);
    crate::fixed::lemma_tdiv_multiple(0, SCALE as int);
    lemma_tdiv_bound(
        (a.x as int) * (b.x as int) + (a.y as int) * (b.y as int) + (a.z as int) * (b.z as int),
        SCALE as int,
        3 * ((ma * mb) / (SCALE as int)),
    );
}

/// Crossing a vector with the fixed vertical up axis gives exactly
/// `(-z, 0, x)`: every product in the determinant carries a factor of
/// `SCALE`, so the scaled division is exact.
pub proof fn lemma_cross_with_up(f: Vec3, up: Vec3)
    requires
        up == (Vec3 { x: 0, y: SCALE, z: 0 }),
    ensures
        f.cross_x(up) == -(f.z as int),
        f.cross_y(up) == 0,
        f.cross_z(up) == f.x as int,
{
    crate::fixed::lemma_tdiv_multiple(-(f.z as int), SCALE as int);
    crate::fixed::lemma_tdiv_multiple(0, SCALE as int);
    crate::fixed::lemma_tdiv_multiple(f.x as int, SCALE as int);
    assert((f.y as int) * 0 - (f.z as int) * (SCALE as int) == (-(f.z as int)) * (SCALE as int))
        by (nonlinear_arith);
    assert((f.z as int) * 0 - (f.x as int) * 0 == 0 * (SCALE as int)) by (nonlinear_arith);
    assert((f.x as int) * (SCALE as int) - (f.y as int) * 0 == (f.x as int) * (SCALE as int))
        by (nonlinear_arith);
}

/// A component of a vector never exceeds the vector's floor length, so the
/// normalized component stays within `SCALE`.
proof fn lemma_normalize_component_bound(c: int, nsq: int, n: int)
    requires
        n >= 1,
        c * c <= nsq,
        nsq < (n + 1) * (n + 1),
    ensures
        abs(tdiv(c * (SCALE as int), n)) <= SCALE as int,
        abs(c) <= n,
{
    assert(abs(c) <= n) by (nonlinear_arith)
        requires
            n >= 1,
            c * c <= nsq,
            nsq < (n + 1) * (n + 1),
    ;
    assert(abs(c * (SCALE as int)) <= (SCALE as int) * n) by (nonlinear_arith)
        requires
            abs(c) <= n,
    ;
    lemma_tdiv_bound(c * (SCALE as int), n, SCALE as int);
}

} // verus!
