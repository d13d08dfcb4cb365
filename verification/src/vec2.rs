//! 2D vectors of fixed-point scalars, and rotations.
//!
//! All componentwise arithmetic inherits the saturating, truncating
//! semantics of [`crate::fixed`], so every operation is total and
//! deterministic.

use crate::fixed::{fx_add, fx_mul, fx_sub, sat64, spec_fx_mul};
use vstd::prelude::*;

verus! {

/// A 2D vector; both components are fixed-point scalars.
#[derive(Clone, Copy, PartialEq, Eq, Structural, Debug)]
pub struct V2 {
    pub x: i64,
    pub y: i64,
}

/// A rotation, stored as the cosine and sine of its angle, both
/// fixed-point.
#[derive(Clone, Copy, PartialEq, Eq, Structural, Debug)]
pub struct Rot2 {
    pub c: i64,
    pub s: i64,
}

/// Componentwise saturating sum.
pub open spec fn spec_v2_add(a: V2, b: V2) -> V2 {
    V2 { x: sat64(a.x + b.x) as i64, y: sat64(a.y + b.y) as i64 }
}

/// Componentwise saturating difference.
pub open spec fn spec_v2_sub(a: V2, b: V2) -> V2 {
    V2 { x: sat64(a.x - b.x) as i64, y: sat64(a.y - b.y) as i64 }
}

/// Both components scaled by the fixed-point factor `s`.
pub open spec fn spec_v2_scale(a: V2, s: int) -> V2 {
    V2 { x: spec_fx_mul(a.x as int, s) as i64, y: spec_fx_mul(a.y as int, s) as i64 }
}

/// Both components divided by the fixed-point divisor `s` (a zero
/// divisor yields zero components).
pub open spec fn spec_v2_div(a: V2, s: int) -> V2 {
    V2 {
        x: crate::fixed::spec_fx_div(a.x as int, s) as i64,
        y: crate::fixed::spec_fx_div(a.y as int, s) as i64,
    }
}

/// The fixed-point dot product `a.x * b.x + a.y * b.y`.
pub open spec fn spec_v2_dot(a: V2, b: V2) -> int {
    sat64(spec_fx_mul(a.x as int, b.x as int) + spec_fx_mul(a.y as int, b.y as int))
}

/// The 2D cross product `a.x * b.y - a.y * b.x`: the scalar torque a
/// force `b` applied at offset `a` produces.
pub open spec fn spec_v2_cross(a: V2, b: V2) -> int {
    sat64(spec_fx_mul(a.x as int, b.y as int) - spec_fx_mul(a.y as int, b.x as int))
}

/// The vector `v` turned by the rotation `r`:
/// `(c * x - s * y, s * x + c * y)`.
pub open spec fn spec_rot_apply(r: Rot2, v: V2) -> V2 {
    V2 {
        x: sat64(spec_fx_mul(r.c as int, v.x as int) - spec_fx_mul(r.s as int, v.y as int)) as i64,
        y: sat64(spec_fx_mul(r.s as int, v.x as int) + spec_fx_mul(r.c as int, v.y as int)) as i64,
    }
}

impl V2 {
    /// The vector with the given components.
    pub fn new(x: i64, y: i64) -> (r: V2)
        ensures
            r == (V2 { x, y }),
    {
        V2 { x, y }
    }

    /// The zero vector.
    pub fn zero() -> (r: V2)
        ensures
            r == (V2 { x: 0, y: 0 }),
    {
        V2 { x: 0, y: 0 }
    }

    /// Componentwise saturating sum.
    pub fn plus(self, other: V2) -> (r: V2)
        ensures
            r == spec_v2_add(self, other),
    {
        V2 { x: fx_add(self.x, other.x), y: fx_add(self.y, other.y) }
    }

    /// Componentwise saturating difference.
    pub fn minus(self, other: V2) -> (r: V2)
        ensures
            r == spec_v2_sub(self, other),
    {
        V2 { x: fx_sub(self.x, other.x), y: fx_sub(self.y, other.y) }
    }

    /// Both components scaled by the fixed-point factor `s`.
    pub fn scaled(self, s: i64) -> (r: V2)
        ensures
            r == spec_v2_scale(self, s as int),
    {
        V2 { x: fx_mul(self.x, s), y: fx_mul(self.y, s) }
    }

    /// Both components divided by the fixed-point divisor `s`.
    pub fn divided(self, s: i64) -> (r: V2)
        ensures
            r == spec_v2_div(self, s as int),
    {
        V2 { x: crate::fixed::fx_div(self.x, s), y: crate::fixed::fx_div(self.y, s) }
    }

    /// The fixed-point dot product.
    pub fn dot(self, other: V2) -> (r: i64)
        ensures
            r as int == spec_v2_dot(self, other),
    {
        fx_add(fx_mul(self.x, other.x), fx_mul(self.y, other.y))
    }

    /// The 2D cross product (see [`spec_v2_cross`]).
    pub fn cross(self, other: V2) -> (r: i64)
        ensures
            r as int == spec_v2_cross(self, other),
    {
        fx_sub(fx_mul(self.x, other.y), fx_mul(self.y, other.x))
    }
}

impl Rot2 {
    /// The identity rotation.
    pub fn identity() -> (r: Rot2)
        ensures
            r == (Rot2 { c: crate::fixed::SCALE, s: 0 }),
    {
        Rot2 { c: crate::fixed::SCALE, s: 0 }
    }

    /// The vector `v` turned by this rotation.
    pub fn apply(self, v: V2) -> (r: V2)
        ensures
            r == spec_rot_apply(self, v),
    {
        V2 {
            x: fx_sub(fx_mul(self.c, v.x), fx_mul(self.s, v.y)),
            y: fx_add(fx_mul(self.s, v.x), fx_mul(self.c, v.y)),
        }
    }
}

} // verus!
