//! Fixed-point sine and cosine.
//!
//! Angles are fixed-point radians. The implementation reduces the angle
//! into `[-pi, pi]`, folds it into `[0, pi/2]`, and evaluates a
//! truncated Taylor series there; the specification states exactly that
//! computation, so every caller sees one deterministic definition of
//! the engine's trigonometry.

use crate::fixed::{
    div_trunc, fx_add, fx_idiv, fx_mul, fx_rem, fx_sub, sat64, spec_fx_mul, spec_rem_trunc, SCALE,
};
use crate::vec2::Rot2;
use vstd::prelude::*;

verus! {

/// Fixed-point `pi`.
pub const PI_FX: i64 = 3_141_593;

/// Fixed-point `2 * pi`.
pub const TWO_PI_FX: i64 = 6_283_185;

/// Fixed-point `pi / 2`.
pub const HALF_PI_FX: i64 = 1_570_796;

/// The angle brought into `[-PI_FX, PI_FX]` by shifting whole turns.
pub open spec fn spec_reduce(a: int) -> int {
    let r = spec_rem_trunc(a, TWO_PI_FX as int);
    if r > PI_FX as int {
        r - TWO_PI_FX as int
    } else if r < -(PI_FX as int) {
        r + TWO_PI_FX as int
    } else {
        r
    }
}

/// The truncated Taylor series of the cosine on `[0, pi/2]`:
/// `1 - t^2/2 + t^4/24 - t^6/720 + t^8/40320`, in fixed point.
pub open spec fn spec_cos_poly(t: int) -> int {
    let t2 = spec_fx_mul(t, t);
    let t4 = spec_fx_mul(t2, t2);
    let t6 = spec_fx_mul(t4, t2);
    let t8 = spec_fx_mul(t4, t4);
    sat64(
        sat64(sat64(sat64(SCALE as int - div_trunc(t2, 2)) + div_trunc(t4, 24)) - div_trunc(
            t6,
            720,
        )) + div_trunc(t8, 40320),
    )
}

/// The truncated Taylor series of the sine on `[0, pi/2]`:
/// `t - t^3/6 + t^5/120 - t^7/5040`, in fixed point.
pub open spec fn spec_sin_poly(t: int) -> int {
    let t2 = spec_fx_mul(t, t);
    let t3 = spec_fx_mul(t2, t);
    let t5 = spec_fx_mul(t3, t2);
    let t7 = spec_fx_mul(t5, t2);
    sat64(sat64(sat64(t - div_trunc(t3, 6)) + div_trunc(t5, 120)) - div_trunc(t7, 5040))
}

/// The engine's cosine: the reduced angle folded onto `[0, pi/2]` and
/// fed to the series, with the sign of the quadrant.
pub open spec fn spec_cos(a: int) -> int {
    let r = spec_reduce(a);
    let u = if r < 0 {
        -r
    } else {
        r
    };
    if u > HALF_PI_FX as int {
        sat64(-spec_cos_poly(PI_FX as int - u))
    } else {
        spec_cos_poly(u)
    }
}

/// The engine's sine, by the same folding.
pub open spec fn spec_sin(a: int) -> int {
    let r = spec_reduce(a);
    let u = if r < 0 {
        -r
    } else {
        r
    };
    let folded = if u > HALF_PI_FX as int {
        PI_FX as int - u
    } else {
        u
    };
    if r < 0 {
        sat64(-spec_sin_poly(folded))
    } else {
        spec_sin_poly(folded)
    }
}

/// The angle brought into `[-PI_FX, PI_FX]` (see [`spec_reduce`]).
fn reduce(a: i64) -> (r: i64)
    ensures
        r as int == spec_reduce(a as int),
        -(PI_FX as int) <= r as int <= PI_FX as int,
{
    let rem = fx_rem(a, TWO_PI_FX);
    if rem > PI_FX {
        rem - TWO_PI_FX
    } else if rem < -PI_FX {
        rem + TWO_PI_FX
    } else {
        rem
    }
}

/// Fixed-point cosine (see [`spec_cos`]).
pub fn cos_fx(a: i64) -> (r: i64)
    ensures
        r as int == spec_cos(a as int),
{
    let reduced = reduce(a);
    let u = if reduced < 0 {
        -reduced
    } else {
        reduced
    };
    if u > HALF_PI_FX {
        fx_sub(0, cos_poly(PI_FX - u))
    } else {
        cos_poly(u)
    }
}

/// Fixed-point sine (see [`spec_sin`]).
pub fn sin_fx(a: i64) -> (r: i64)
    ensures
        r as int == spec_sin(a as int),
{
    let reduced = reduce(a);
    let u = if reduced < 0 {
        -reduced
    } else {
        reduced
    };
    let folded = if u > HALF_PI_FX {
        PI_FX - u
    } else {
        u
    };
    let s = sin_poly(folded);
    if reduced < 0 {
        fx_sub(0, s)
    } else {
        s
    }
}

/// The cosine series on `[0, pi/2]` (see [`spec_cos_poly`]).
fn cos_poly(t: i64) -> (r: i64)
    requires
        0 <= t <= HALF_PI_FX,
    ensures
        r as int == spec_cos_poly(t as int),
{
    let t2 = fx_mul(t, t);
    let t4 = fx_mul(t2, t2);
    let t6 = fx_mul(t4, t2);
    let t8 = fx_mul(t4, t4);
    fx_add(fx_sub(fx_add(fx_sub(SCALE, fx_idiv(t2, 2)), fx_idiv(t4, 24)), fx_idiv(t6, 720)), fx_idiv(t8, 40320))
}

/// The sine series on `[0, pi/2]` (see [`spec_sin_poly`]).
fn sin_poly(t: i64) -> (r: i64)
    requires
        0 <= t <= HALF_PI_FX,
    ensures
        r as int == spec_sin_poly(t as int),
{
    let t2 = fx_mul(t, t);
    let t3 = fx_mul(t2, t);
    let t5 = fx_mul(t3, t2);
    let t7 = fx_mul(t5, t2);
    fx_sub(fx_add(fx_sub(t, fx_idiv(t3, 6)), fx_idiv(t5, 120)), fx_idiv(t7, 5040))
}

/// The rotation of the given fixed-point angle: its cosine and sine.
pub open spec fn spec_rot_from_angle(a: int) -> Rot2 {
    Rot2 { c: spec_cos(a) as i64, s: spec_sin(a) as i64 }
}

/// Builds the rotation of an angle (see [`spec_rot_from_angle`]).
pub fn rot_from_angle(a: i64) -> (r: Rot2)
    ensures
        r == spec_rot_from_angle(a as int),
{
    Rot2 { c: cos_fx(a), s: sin_fx(a) }
}

} // verus!
