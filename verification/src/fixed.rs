//! Fixed-point scalar arithmetic.
//!
//! Every scalar quantity of the engine (positions, velocities, forces,
//! masses, angles in radians, torques, moments of inertia) is an `i64`
//! counting millionths: the value `1_500_000` stands for `1.5`.
//!
//! Products and quotients are truncated toward zero, and every operation
//! saturates at the `i64` range instead of overflowing, so all operations
//! here are total: they accept any input and never panic.

use vstd::prelude::*;

verus! {

/// Number of fixed-point ticks in one simulation unit.
pub const SCALE: i64 = 1_000_000;

/// Magnitude of an integer.
pub open spec fn iabs(a: int) -> int {
    if a < 0 {
        -a
    } else {
        a
    }
}

/// Clamps an unbounded integer into the `i64` range.
pub open spec fn sat64(v: int) -> int {
    if v > i64::MAX as int {
        i64::MAX as int
    } else if v < i64::MIN as int {
        i64::MIN as int
    } else {
        v
    }
}

/// Quotient of `a / b` rounded toward zero (the machine convention for
/// signed division), as opposed to the Euclidean `/` of spec arithmetic.
pub open spec fn div_trunc(a: int, b: int) -> int
    recommends
        b != 0,
{
    let q = iabs(a) / iabs(b);
    if (a < 0) != (b < 0) {
        -q
    } else {
        q
    }
}

/// The fixed-point product `a * b / SCALE`, truncated toward zero and
/// saturated at the `i64` range.
pub open spec fn spec_fx_mul(a: int, b: int) -> int {
    sat64(div_trunc(a * b, SCALE as int))
}

/// The fixed-point quotient `a * SCALE / b`, truncated toward zero and
/// saturated at the `i64` range. A zero divisor yields zero: degenerate
/// quantities are absorbed into a safe default rather than propagated.
pub open spec fn spec_fx_div(a: int, b: int) -> int {
    if b == 0 {
        0
    } else {
        sat64(div_trunc(a * SCALE as int, b))
    }
}

/// `v` forced into the closed interval `[lo, hi]`.
pub open spec fn spec_clamp(v: int, lo: int, hi: int) -> int
    recommends
        lo <= hi,
{
    if v < lo {
        lo
    } else if v > hi {
        hi
    } else {
        v
    }
}

/// Narrows a 128-bit intermediate result to `i64`, saturating.
fn sat_narrow(v: i128) -> (r: i64)
    ensures
        r as int == sat64(v as int),
{
    if v > i64::MAX as i128 {
        i64::MAX
    } else if v < i64::MIN as i128 {
        i64::MIN
    } else {
        v as i64
    }
}

/// Truncating signed division on 128-bit intermediates, computed over
/// magnitudes so that the rounding direction is explicit.
fn div_trunc_i128(a: i128, b: i128) -> (r: i128)
    requires
        b != 0,
        a != i128::MIN,
        b != i128::MIN,
    ensures
        r as int == div_trunc(a as int, b as int),
{
    let negative: bool = (a < 0) != (b < 0);
    let ua: u128 = if a < 0 {
        (-a) as u128
    } else {
        a as u128
    };
    let ub: u128 = if b < 0 {
        (-b) as u128
    } else {
        b as u128
    };
    let uq: u128 = ua / ub;
    proof {
        assert(ua as int == iabs(a as int));
        assert(ub as int == iabs(b as int));
        assert(uq as int == iabs(a as int) / iabs(b as int));
        assert(uq <= ua) by {
            vstd::arithmetic::div_mod::lemma_fundamental_div_mod(ua as int, ub as int);
            assert(ua as int == ub as int * (ua as int / ub as int) + (ua as int % ub as int));
            assert(ub as int * uq as int >= uq as int) by (nonlinear_arith)
                requires
                    ub as int >= 1,
                    uq as int >= 0,
            ;
        }
    }
    if negative {
        -(uq as i128)
    } else {
        uq as i128
    }
}

/// Saturating sum of two fixed-point scalars.
pub fn fx_add(a: i64, b: i64) -> (r: i64)
    ensures
        r as int == sat64(a + b),
{
    sat_narrow(a as i128 + b as i128)
}

/// Saturating difference of two fixed-point scalars.
pub fn fx_sub(a: i64, b: i64) -> (r: i64)
    ensures
        r as int == sat64(a - b),
{
    sat_narrow(a as i128 - b as i128)
}

/// The product of two values in the `i64` range stays well inside `i128`.
proof fn lemma_i64_product_fits(a: int, b: int)
    requires
        i64::MIN <= a <= i64::MAX,
        i64::MIN <= b <= i64::MAX,
    ensures
        i128::MIN < a * b,
        a * b < i128::MAX,
{
    assert(i128::MIN < a * b) by (nonlinear_arith)
        requires
            i64::MIN <= a <= i64::MAX,
            i64::MIN <= b <= i64::MAX,
    ;
    assert(a * b < i128::MAX) by (nonlinear_arith)
        requires
            i64::MIN <= a <= i64::MAX,
            i64::MIN <= b <= i64::MAX,
    ;
}

/// Fixed-point product (see [`spec_fx_mul`]).
pub fn fx_mul(a: i64, b: i64) -> (r: i64)
    ensures
        r as int == spec_fx_mul(a as int, b as int),
{
    proof {
        lemma_i64_product_fits(a as int, b as int);
    }
    let wide: i128 = (a as i128) * (b as i128);
    let q: i128 = div_trunc_i128(wide, SCALE as i128);
    sat_narrow(q)
}

/// Fixed-point quotient (see [`spec_fx_div`]).
pub fn fx_div(a: i64, b: i64) -> (r: i64)
    ensures
        r as int == spec_fx_div(a as int, b as int),
{
    if b == 0 {
        0
    } else {
        proof {
            lemma_i64_product_fits(a as int, SCALE as int);
        }
        let wide: i128 = (a as i128) * (SCALE as i128);
        let q: i128 = div_trunc_i128(wide, b as i128);
        sat_narrow(q)
    }
}

/// Plain truncating integer division by a positive constant, used for
/// the factorial denominators of the trigonometric series.
pub fn fx_idiv(a: i64, b: i64) -> (r: i64)
    requires
        b > 0,
    ensures
        r as int == div_trunc(a as int, b as int),
{
    let q: i128 = div_trunc_i128(a as i128, b as i128);
    proof {
        vstd::arithmetic::div_mod::lemma_fundamental_div_mod(iabs(a as int), b as int);
        assert(iabs(a as int) / (b as int) <= iabs(a as int)) by (nonlinear_arith)
            requires
                b as int >= 1,
                iabs(a as int) >= 0,
                iabs(a as int) == (b as int) * (iabs(a as int) / (b as int)) + iabs(a as int) % (
                b as int),
        ;
    }
    q as i64
}

/// The remainder of `a / b` that pairs with truncating division: it
/// carries the sign of `a` and its magnitude stays below `b`.
pub open spec fn spec_rem_trunc(a: int, b: int) -> int
    recommends
        b > 0,
{
    if a < 0 {
        -((-a) % b)
    } else {
        a % b
    }
}

/// Truncating remainder (see [`spec_rem_trunc`]).
pub fn fx_rem(a: i64, b: i64) -> (r: i64)
    requires
        b > 0,
    ensures
        r as int == spec_rem_trunc(a as int, b as int),
        -(b as int) < (r as int) < (b as int),
{
    let wide: i128 = a as i128;
    let magnitude: u128 = if wide < 0 {
        (-wide) as u128
    } else {
        wide as u128
    };
    let rem: u128 = magnitude % (b as u128);
    if wide < 0 {
        -(rem as i64)
    } else {
        rem as i64
    }
}

/// `v` forced into the closed interval `[lo, hi]`.
pub fn fx_clamp(v: i64, lo: i64, hi: i64) -> (r: i64)
    requires
        lo <= hi,
    ensures
        r as int == spec_clamp(v as int, lo as int, hi as int),
{
    if v < lo {
        lo
    } else if v > hi {
        hi
    } else {
        v
    }
}

} // verus!
