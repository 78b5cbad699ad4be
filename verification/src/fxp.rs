//! Fixed-point scalar arithmetic.
//!
//! Every physical scalar in this library is an `i64` counting millionths of
//! a unit, so products, quotients and the epsilon floor are exact integer
//! operations that contracts can state directly.

use vstd::prelude::*;
use vstd::arithmetic::mul::lemma_mul_inequality;
use vstd::arithmetic::div_mod::lemma_div_is_ordered;
use vstd::arithmetic::div_mod::lemma_div_is_ordered_by_denominator;

verus! {

/// One unit: scalars are counted in millionths of a unit.
pub const FX_SCALE: i64 = 1_000_000;

/// The epsilon floor: the smallest positive scalar, one millionth of a unit.
/// Masses and inverse masses are never allowed below it.
pub const FX_EPSILON: i64 = 1;

/// Magnitude bound on every host-authored scalar (positions, velocities,
/// densities, authored masses, the step duration): one thousand units.
pub const MAX_AUTHORED: i64 = 1_000_000_000;

/// Bound on a shape half-extent: one hundred units.
pub const MAX_EXTENT: i64 = 100_000_000;

/// Largest mass a collider shape within bounds can contribute:
/// `MAX_AUTHORED` density times the largest shape area.
pub const MAX_CONTRIB_MASS: i64 = 40_000_000_000_000;

/// Largest inertia a collider shape within bounds can contribute.
pub const MAX_CONTRIB_INERTIA: i64 = 800_000_000_000_000_000;

/// Largest value `recip_floor` can return: the inverse of the epsilon floor.
pub const MAX_INV: i64 = 1_000_000_000_000;

/// Fixed-point product: the integer product scaled back down to ticks.
pub open spec fn fmul(a: int, b: int) -> int {
    (a * b) / (FX_SCALE as int)
}

/// Fixed-point inverse with the epsilon floor applied to the divisor, so a
/// zero or negative input still yields a finite, positive inverse.
pub open spec fn recip_floor(m: int) -> int {
    ((FX_SCALE as int) * (FX_SCALE as int)) / (if m < FX_EPSILON {
        FX_EPSILON as int
    } else {
        m
    })
}

/// Absolute value of a mathematical integer.
pub open spec fn sabs(x: int) -> int {
    if x < 0 {
        -x
    } else {
        x
    }
}

/// The integer square root, rounded down.
pub open spec fn sqrt_floor(n: int) -> int {
    choose|r: int| 0 <= r && #[trigger] (r * r) <= n && n < (r + 1) * (r + 1)
}

/// The defining bracket of `sqrt_floor` holds for every non-negative input.
pub proof fn lemma_sqrt_floor_bracket(n: int)
    requires
        0 <= n,
    ensures
        0 <= sqrt_floor(n),
        sqrt_floor(n) * sqrt_floor(n) <= n,
        n < (sqrt_floor(n) + 1) * (sqrt_floor(n) + 1),
    decreases n,
{
    if n == 0 {
        assert(0 <= 0 && 0 * 0 <= n && n < (0 + 1) * (0 + 1));
    } else {
        lemma_sqrt_floor_bracket(n - 1);
        let r0: int = sqrt_floor(n - 1);
        if (r0 + 1) * (r0 + 1) <= n {
            // n - 1 < (r0 + 1)^2 <= n forces n == (r0 + 1)^2.
            assert((r0 + 1) * (r0 + 1) == n);
            assert(n < (r0 + 2) * (r0 + 2)) by (nonlinear_arith)
                requires
                    0 <= r0,
                    n == (r0 + 1) * (r0 + 1),
            ;
            assert(0 <= r0 + 1 && (r0 + 1) * (r0 + 1) <= n && n < ((r0 + 1) + 1) * ((r0 + 1) + 1));
        } else {
            assert(0 <= r0 && r0 * r0 <= n && n < (r0 + 1) * (r0 + 1));
        }
    }
}

/// Any value satisfying the bracket is `sqrt_floor` itself.
pub proof fn lemma_sqrt_floor_unique(n: int, r: int)
    requires
        0 <= n,
        0 <= r,
        r * r <= n,
        n < (r + 1) * (r + 1),
    ensures
        r == sqrt_floor(n),
{
    lemma_sqrt_floor_bracket(n);
    let s: int = sqrt_floor(n);
    assert(r == s) by (nonlinear_arith)
        requires
            0 <= r,
            0 <= s,
            r * r <= n,
            n < (r + 1) * (r + 1),
            s * s <= n,
            n < (s + 1) * (s + 1),
    ;
}

/// The integer square root is monotone.
pub proof fn lemma_sqrt_floor_mono(a: int, b: int)
    requires
        0 <= a,
        a <= b,
    ensures
        sqrt_floor(a) <= sqrt_floor(b),
{
    lemma_sqrt_floor_bracket(a);
    lemma_sqrt_floor_bracket(b);
    let sa: int = sqrt_floor(a);
    let sb: int = sqrt_floor(b);
    assert(sa <= sb) by (nonlinear_arith)
        requires
            0 <= sa,
            0 <= sb,
            sa * sa <= a,
            a <= b,
            b < (sb + 1) * (sb + 1),
    ;
}

/// An upper bound on the root from an upper bound on the square.
pub proof fn lemma_sqrt_floor_le(n: int, b: int)
    requires
        0 <= n,
        0 <= b,
        n < (b + 1) * (b + 1),
    ensures
        sqrt_floor(n) <= b,
{
    lemma_sqrt_floor_bracket(n);
    let s: int = sqrt_floor(n);
    assert(s <= b) by (nonlinear_arith)
        requires
            0 <= s,
            0 <= b,
            s * s <= n,
            n < (b + 1) * (b + 1),
    ;
}

/// A fixed-point product of non-negative factors is non-negative and
/// bounded by the product of the factors' bounds.
pub proof fn lemma_fmul_bound(a: int, b: int, ca: int, cb: int)
    requires
        0 <= a <= ca,
        0 <= b <= cb,
    ensures
        0 <= fmul(a, b),
        fmul(a, b) <= ca * cb / (FX_SCALE as int),
{
    assert(0 <= a * b && a * b <= ca * cb) by (nonlinear_arith)
        requires
            0 <= a <= ca,
            0 <= b <= cb,
    ;
    lemma_div_is_ordered(0, a * b, FX_SCALE as int);
    lemma_div_is_ordered(a * b, ca * cb, FX_SCALE as int);
}

/// For a non-negative left factor, the fixed-point product is monotone in
/// the right factor.
pub proof fn lemma_fmul_mono(a: int, b1: int, b2: int)
    requires
        0 <= a,
        b1 <= b2,
    ensures
        fmul(a, b1) <= fmul(a, b2),
{
    lemma_mul_inequality(b1, b2, a);
    assert(a * b1 <= a * b2) by (nonlinear_arith)
        requires
            b1 * a <= b2 * a,
    ;
    lemma_div_is_ordered(a * b1, a * b2, FX_SCALE as int);
}

/// The epsilon-floored inverse always lands between zero and the inverse of
/// the epsilon floor itself.
pub proof fn lemma_recip_floor_bounds(m: int)
    ensures
        0 <= recip_floor(m) <= MAX_INV,
{
    let d: int = if m < FX_EPSILON {
        FX_EPSILON as int
    } else {
        m
    };
    assert((FX_SCALE as int) * (FX_SCALE as int) == 1_000_000_000_000) by (nonlinear_arith);
    vstd::arithmetic::div_mod::lemma_div_pos_is_pos(1_000_000_000_000, d);
    lemma_div_is_ordered_by_denominator(1_000_000_000_000, 1, d);
    assert(1_000_000_000_000int / 1int == 1_000_000_000_000int);
}

/// Fixed-point multiplication of non-negative scalars.
pub fn fx_mul(a: i64, b: i64) -> (r: i64)
    requires
        0 <= a,
        0 <= b,
        fmul(a as int, b as int) <= i64::MAX,
    ensures
        r == fmul(a as int, b as int),
        0 <= r,
{
    let p: u128 = (a as u128) * (b as u128);
    let q: u128 = p / (FX_SCALE as u128);
    proof {
        lemma_div_is_ordered(0, (a as int) * (b as int), FX_SCALE as int);
    }
    q as i64
}

/// Fixed-point inverse with the epsilon floor on the divisor.
pub fn fx_recip(m: i64) -> (r: i64)
    ensures
        r == recip_floor(m as int),
        0 <= r <= MAX_INV,
{
    let d: i64 = if m < FX_EPSILON {
        FX_EPSILON
    } else {
        m
    };
    let num: u64 = 1_000_000_000_000;
    let q: u64 = num / (d as u64);
    proof {
        assert((FX_SCALE as int) * (FX_SCALE as int) == 1_000_000_000_000) by (nonlinear_arith);
        lemma_div_is_ordered_by_denominator(num as int, 1, d as int);
    }
    q as i64
}

/// Absolute value.
pub fn fx_abs(x: i64) -> (r: i64)
    requires
        i64::MIN < x,
    ensures
        r == sabs(x as int),
        0 <= r,
{
    if x < 0 {
        -x
    } else {
        x
    }
}

/// Integer square root, rounded down.
pub fn fx_isqrt(n: u64) -> (r: u64)
    requires
        n <= 4_000_000_000_000_000_000,
    ensures
        r == sqrt_floor(n as int),
        0 <= r,
{
    let mut lo: u64 = 0;
    let mut hi: u64 = 2_000_000_001;
    proof {
        assert((n as int) < 2_000_000_001 * 2_000_000_001) by (nonlinear_arith)
            requires
                n <= 4_000_000_000_000_000_000,
        ;
    }
    while lo + 1 < hi
        invariant
            lo < hi,
            hi <= 2_000_000_001,
            (lo as int) * (lo as int) <= n as int,
            (n as int) < (hi as int) * (hi as int),
        decreases hi - lo,
    {
        let mid: u64 = lo + (hi - lo) / 2;
        proof {
            assert((mid as int) * (mid as int) <= 4_000_000_004_000_000_001) by (nonlinear_arith)
                requires
                    mid <= 2_000_000_001,
            ;
        }
        if mid * mid <= n {
            lo = mid;
        } else {
            hi = mid;
        }
    }
    proof {
        assert(hi == lo + 1);
        lemma_sqrt_floor_unique(n as int, lo as int);
    }
    lo
}

} // verus!
