//! Fixed-point scalar arithmetic.
//!
//! Every continuous quantity in this library (positions, angles, matrix
//! entries) is held as an `i64` number of micro-units: `SCALE` of them make
//! one unit. Products of two scaled values are divided by `SCALE` again,
//! truncating toward zero, which is the rounding that this whole library
//! uses and states in its contracts.

use vstd::prelude::*;

verus! {

/// Number of micro-units in one unit (one metre, one radian, one degree).
pub const SCALE: i64 = 1_000_000;

/// Largest magnitude a scaled scalar may have before a product of two of
/// them, divided by `SCALE`, could leave the `i64` range.
pub const FIX_BOUND: i64 = 1_000_000_000_000;

/// Truncating division (rounding toward zero), the rounding of Rust's `/`
/// on signed integers; `b` must not be zero for the result to be meaningful.
pub open spec fn tdiv(a: int, b: int) -> int {
    if a >= 0 {
        a / b
    } else {
        -((-a) / b)
    }
}

/// The product of two scaled values, brought back to scale: `a * b / SCALE`,
/// truncated toward zero.
pub open spec fn mul_scaled(a: int, b: int) -> int {
    tdiv(a * b, SCALE as int)
}

/// Magnitude of an integer.
pub open spec fn abs(a: int) -> int {
    if a >= 0 {
        a
    } else {
        -a
    }
}

/// Truncating division never grows a magnitude: `|a / b| <= m` whenever
/// `|a| <= m * b`.
pub proof fn lemma_tdiv_bound(a: int, b: int, m: int)
    requires
        b >= 1,
        0 <= m,
        abs(a) <= m * b,
    ensures
        abs(tdiv(a, b)) <= m,
{
    if a >= 0 {
        vstd::arithmetic::div_mod::lemma_div_is_ordered(a, m * b, b);
        vstd::arithmetic::div_mod::lemma_div_by_multiple(m, b);
    } else {
        vstd::arithmetic::div_mod::lemma_div_is_ordered(-a, m * b, b);
        vstd::arithmetic::div_mod::lemma_div_by_multiple(m, b);
    }
}

/// Truncating division is odd in its dividend: dividing `-a` negates the
/// quotient.
pub proof fn lemma_tdiv_neg(a: int, b: int)
    requires
        b >= 1,
    ensures
        tdiv(-a, b) == -tdiv(a, b),
{
}

/// Truncating division leaves a remainder smaller than the divisor:
/// `|a - b * tdiv(a, b)| < b`.
pub proof fn lemma_tdiv_remainder(a: int, b: int)
    requires
        b >= 1,
    ensures
        abs(a - b * tdiv(a, b)) < b,
{
    if a >= 0 {
        vstd::arithmetic::div_mod::lemma_fundamental_div_mod(a, b);
        vstd::arithmetic::div_mod::lemma_mod_division_less_than_divisor(a, b);
    } else {
        let q = (-a) / b;
        vstd::arithmetic::div_mod::lemma_fundamental_div_mod(-a, b);
        vstd::arithmetic::div_mod::lemma_mod_division_less_than_divisor(-a, b);
        assert(tdiv(a, b) == -q);
        assert(b * (-q) == -(b * q)) by (nonlinear_arith);
    }
}

/// A product of bounded factors is bounded: `|a * b| <= ma * mb`.
pub proof fn lemma_mul_abs_bound(a: int, b: int, ma: int, mb: int)
    requires
        abs(a) <= ma,
        abs(b) <= mb,
    ensures
        abs(a * b) <= ma * mb,
{
    assert(abs(a * b) <= ma * mb) by (nonlinear_arith)
        requires
            abs(a) <= ma,
            abs(b) <= mb,
    ;
}

/// Bound on a scaled product: with `|a| <= ma` and `|b| <= mb`,
/// `|mul_scaled(a, b)| <= ma * mb / SCALE` (exactly when `ma * mb` is a
/// multiple of `SCALE`, which the callers arrange).
pub proof fn lemma_mul_scaled_bound(a: int, b: int, ma: int, mb: int)
    requires
        abs(a) <= ma,
        abs(b) <= mb,
        (ma * mb) % (SCALE as int) == 0,
    ensures
        abs(mul_scaled(a, b)) <= (ma * mb) / (SCALE as int),
{
    lemma_mul_abs_bound(a, b, ma, mb);
    vstd::arithmetic::div_mod::lemma_fundamental_div_mod(ma * mb, SCALE as int);
    lemma_tdiv_bound(a * b, SCALE as int, (ma * mb) / (SCALE as int));
}

/// Dividing an exact multiple is exact: `tdiv(c * b, b) == c`.
pub proof fn lemma_tdiv_multiple(c: int, b: int)
    requires
        b >= 1,
    ensures
        tdiv(c * b, b) == c,
{
    if c >= 0 {
        vstd::arithmetic::div_mod::lemma_div_by_multiple(c, b);
        assert(c * b >= 0) by (nonlinear_arith)
            requires
                c >= 0,
                b >= 1,
        ;
    } else {
        vstd::arithmetic::div_mod::lemma_div_by_multiple(-c, b);
        assert(c * b < 0 && -(c * b) == (-c) * b) by (nonlinear_arith)
            requires
                c < 0,
                b >= 1,
        ;
    }
}

/// A common factor of dividend and divisor cancels:
/// `tdiv(x * c, d * c) == tdiv(x, d)`.
pub proof fn lemma_tdiv_scale_cancel(x: int, c: int, d: int)
    requires
        c >= 1,
        d >= 1,
    ensures
        tdiv(x * c, d * c) == tdiv(x, d),
{
    assert(c * d == d * c) by (nonlinear_arith);
    if x >= 0 {
        assert(x * c >= 0) by (nonlinear_arith)
            requires
                x >= 0,
                c >= 1,
        ;
        vstd::arithmetic::div_mod::lemma_div_by_multiple(x, c);
        vstd::arithmetic::div_mod::lemma_div_denominator(x * c, c, d);
    } else {
        assert(x * c < 0 && -(x * c) == (-x) * c) by (nonlinear_arith)
            requires
                x < 0,
                c >= 1,
        ;
        vstd::arithmetic::div_mod::lemma_div_by_multiple(-x, c);
        vstd::arithmetic::div_mod::lemma_div_denominator((-x) * c, c, d);
    }
}

/// A scaled product with a unit-bounded factor never exceeds the other
/// factor: `|a| <= SCALE` and `0 <= b` give `|mul_scaled(a, b)| <= b`.
pub proof fn lemma_mul_scaled_unit_bound(a: int, b: int)
    requires
        abs(a) <= SCALE as int,
        0 <= b,
    ensures
        abs(mul_scaled(a, b)) <= b,
{
    assert(abs(a * b) <= b * (SCALE as int)) by (nonlinear_arith)
        requires
            -(SCALE as int) <= a <= SCALE as int,
            0 <= b,
    ;
    lemma_tdiv_bound(a * b, SCALE as int, b);
}

/// Computes `a * b / SCALE` with the intermediate product held in 128 bits,
/// so the only demand on the inputs is the `FIX_BOUND` cap.
pub fn scale_mul(a: i64, b: i64) -> (r: i64)
    requires
        -FIX_BOUND <= a <= FIX_BOUND,
        -FIX_BOUND <= b <= FIX_BOUND,
    ensures
        r == mul_scaled(a as int, b as int),
{
    proof {
        lemma_mul_abs_bound(a as int, b as int, FIX_BOUND as int, FIX_BOUND as int);
        lemma_tdiv_bound(
            (a as int) * (b as int),
            SCALE as int,
            (FIX_BOUND as int) * (FIX_BOUND as int) / (SCALE as int),
        );
    }
    let p: i128 = (a as i128) * (b as i128);
    let q: i128 = p / (SCALE as i128);
    q as i64
}

/// Floor of the square root of a nonnegative integer (0 below 1).
pub open spec fn sqrt_floor(n: int) -> int
    decreases n,
{
    if n < 1 {
        0
    } else {
        let s = sqrt_floor(n - 1);
        if (s + 1) * (s + 1) <= n {
            s + 1
        } else {
            s
        }
    }
}

/// `sqrt_floor(n)` is the nonnegative root: `s * s <= n < (s + 1) * (s + 1)`.
pub proof fn lemma_sqrt_floor_props(n: int)
    requires
        0 <= n,
    ensures
        0 <= sqrt_floor(n),
        sqrt_floor(n) * sqrt_floor(n) <= n,
        n < (sqrt_floor(n) + 1) * (sqrt_floor(n) + 1),
    decreases n,
{
    if n >= 1 {
        lemma_sqrt_floor_props(n - 1);
        let s = sqrt_floor(n - 1);
        if (s + 1) * (s + 1) <= n {
            assert(n < (s + 2) * (s + 2)) by (nonlinear_arith)
                requires
                    0 <= s,
                    n - 1 < (s + 1) * (s + 1),
            ;
        }
    }
}

/// The floor square root of a positive number is positive.
pub proof fn lemma_sqrt_floor_pos(n: int)
    requires
        1 <= n,
    ensures
        1 <= sqrt_floor(n),
{
    lemma_sqrt_floor_props(n);
    if sqrt_floor(n) == 0 {
        assert((sqrt_floor(n) + 1) * (sqrt_floor(n) + 1) == 1) by (nonlinear_arith)
            requires
                sqrt_floor(n) == 0,
        ;
        assert(false);
    }
}

/// The floor square root is the unique nonnegative `r` with
/// `r * r <= n < (r + 1) * (r + 1)`.
pub proof fn lemma_sqrt_floor_unique(n: int, r: int)
    requires
        0 <= r,
        r * r <= n,
        n < (r + 1) * (r + 1),
    ensures
        sqrt_floor(n) == r,
{
    lemma_sqrt_floor_props(n);
    let q = sqrt_floor(n);
    assert(q == r) by (nonlinear_arith)
        requires
            0 <= r,
            r * r <= n,
            n < (r + 1) * (r + 1),
            0 <= q,
            q * q <= n,
            n < (q + 1) * (q + 1),
    ;
}

/// Integer square root by binary search: returns `sqrt_floor(n)`.
pub fn isqrt(n: u128) -> (r: u64)
    requires
        n < 0x1_0000_0000_0000_0000_0000_0000_0000,
    ensures
        r == sqrt_floor(n as int),
        (r as int) * (r as int) <= n as int,
        (n as int) < ((r as int) + 1) * ((r as int) + 1),
{
    let mut lo: u64 = 0;
    let mut hi: u64 = 0x100_0000_0000_0000;
    proof {
        assert((hi as int + 1) * (hi as int + 1) > n as int) by (nonlinear_arith)
            requires
                hi == 0x100_0000_0000_0000u64,
                n < 0x1_0000_0000_0000_0000_0000_0000_0000u128,
        ;
    }
    while lo < hi
        invariant
            (lo as int) * (lo as int) <= n as int,
            (n as int) < ((hi as int) + 1) * ((hi as int) + 1),
            lo <= hi,
            hi <= 0x100_0000_0000_0000,
        decreases hi - lo,
    {
        let mid: u64 = lo + (hi - lo + 1) / 2;
        proof {
            assert((mid as int) * (mid as int) < 0x1_0000_0000_0000_0000_0000_0000_0000_0000int)
                by (nonlinear_arith)
                requires
                    mid <= 0x100_0000_0000_0000u64,
            ;
        }
        let sq: u128 = (mid as u128) * (mid as u128);
        if sq <= n {
            lo = mid;
        } else {
            hi = mid - 1;
        }
    }
    proof {
        lemma_sqrt_floor_unique(n as int, lo as int);
    }
    lo
}

} // verus!
