//! Narrow-phase collision tests and penetration-resolution data, one
//! relation per ordered pair of shape kinds.
//!
//! Every predicate here is a pure function of the two bodies' current
//! state; corrections are returned as [`TempPhyObjData`] records and
//! committed by the world once all pairs have been examined.

use crate::circle_body::Circle;
use crate::convex_body::{spec_transformed_vertex, Convex2D};
use crate::fixed::{fx_add, fx_div, fx_mul, fx_sub, sat64, spec_fx_div, spec_fx_mul, SCALE};
use crate::physics_world::TempPhyObjData;
use crate::trig::{rot_from_angle, spec_rot_from_angle};
use crate::vec2::{spec_v2_cross, spec_v2_dot, spec_v2_scale, spec_v2_sub, Rot2, V2};
use vstd::prelude::*;

verus! {

/// Numeric tolerance of the segment-bounds test, one ten-thousandth of
/// a unit.
pub const BOUNDS_ERR: i64 = 100;

/// Two circles collide exactly when the squared distance of their
/// centers is at most the square of the sum of their radii (no square
/// root is ever taken).
pub open spec fn spec_circle_circle_collide(a: Circle, b: Circle) -> bool {
    let dx = sat64(b.pos.x - a.pos.x);
    let dy = sat64(b.pos.y - a.pos.y);
    let dist_sq = sat64(spec_fx_mul(dx, dx) + spec_fx_mul(dy, dy));
    let r_sum = sat64(a.r + b.r);
    dist_sq <= spec_fx_mul(r_sum, r_sum)
}

/// The collision predicate for two circles (see
/// [`spec_circle_circle_collide`]).
pub fn circle_circle_check_col(object: &Circle, other: &Circle) -> (r: bool)
    ensures
        r == spec_circle_circle_collide(*object, *other),
{
    let dx = fx_sub(other.pos.x, object.pos.x);
    let dy = fx_sub(other.pos.y, object.pos.y);
    let dist_sq = fx_add(fx_mul(dx, dx), fx_mul(dy, dy));
    let r_sum = fx_add(object.r, other.r);
    dist_sq <= fx_mul(r_sum, r_sum)
}

/// A body's position one velocity step back: the cheap pseudo-backtrack
/// that approximately undoes an interpenetrating step.
pub open spec fn spec_rollback_pos(pos: V2, vel: V2) -> V2 {
    V2 { x: sat64(pos.x - vel.x) as i64, y: sat64(pos.y - vel.y) as i64 }
}

/// The corrections for two colliding circles: each is rolled back by
/// its own current velocity; no velocity or torque is staged here.
pub open spec fn spec_circle_circle_reset(object: Circle, other: Circle) -> (
    TempPhyObjData,
    TempPhyObjData,
) {
    (
        TempPhyObjData {
            pos: spec_rollback_pos(object.pos, object.vel),
            vel: None,
            torque: 0,
        },
        TempPhyObjData { pos: spec_rollback_pos(other.pos, other.vel), vel: None, torque: 0 },
    )
}

/// The correction records for two colliding circles (see
/// [`spec_circle_circle_reset`]); a pair is always produced.
pub fn circle_circle_pos_reset_to(object: &Circle, other: &Circle) -> (r: Option<
    (TempPhyObjData, TempPhyObjData),
>)
    ensures
        r == Some(spec_circle_circle_reset(*object, *other)),
{
    let t_circle1 = TempPhyObjData {
        pos: V2 { x: fx_sub(object.pos.x, object.vel.x), y: fx_sub(object.pos.y, object.vel.y) },
        vel: None,
        torque: 0,
    };
    let t_circle2 = TempPhyObjData {
        pos: V2 { x: fx_sub(other.pos.x, other.vel.x), y: fx_sub(other.pos.y, other.vel.y) },
        vel: None,
        torque: 0,
    };
    Some((t_circle1, t_circle2))
}

/// The point of the infinite line through `(x1, y1)` and `(x2, y2)`
/// closest to `(px, py)`, by projecting the point onto the line. A
/// degenerate zero-length line yields a zero projection parameter
/// rather than a non-finite one.
pub open spec fn spec_closest_point_to_line(
    px: int,
    py: int,
    x1: int,
    y1: int,
    x2: int,
    y2: int,
) -> (int, int) {
    let dx = sat64(x1 - x2);
    let dy = sat64(y1 - y2);
    let len_sq = sat64(spec_fx_mul(dx, dx) + spec_fx_mul(dy, dy));
    let numerator = sat64(
        spec_fx_mul(sat64(px - x1), sat64(x2 - x1)) + spec_fx_mul(sat64(py - y1), sat64(y2 - y1)),
    );
    let t = spec_fx_div(numerator, len_sq);
    (
        sat64(x1 + spec_fx_mul(t, sat64(x2 - x1))),
        sat64(y1 + spec_fx_mul(t, sat64(y2 - y1))),
    )
}

/// The closest point on a line (see [`spec_closest_point_to_line`]).
pub fn get_closest_point_to_line(px: i64, py: i64, x1: i64, y1: i64, x2: i64, y2: i64) -> (r: (
    i64,
    i64,
))
    ensures
        (r.0 as int, r.1 as int) == spec_closest_point_to_line(
            px as int,
            py as int,
            x1 as int,
            y1 as int,
            x2 as int,
            y2 as int,
        ),
{
    let dx = fx_sub(x1, x2);
    let dy = fx_sub(y1, y2);
    let len_sq = fx_add(fx_mul(dx, dx), fx_mul(dy, dy));
    let numerator = fx_add(
        fx_mul(fx_sub(px, x1), fx_sub(x2, x1)),
        fx_mul(fx_sub(py, y1), fx_sub(y2, y1)),
    );
    let t = fx_div(numerator, len_sq);
    let closest_x = fx_add(x1, fx_mul(t, fx_sub(x2, x1)));
    let closest_y = fx_add(y1, fx_mul(t, fx_sub(y2, y1)));
    (closest_x, closest_y)
}

/// Whether `(px, py)` lies inside the axis-aligned bounding box of the
/// segment from `(x1, y1)` to `(x2, y2)`, widened by the tolerance
/// [`BOUNDS_ERR`] on every side.
pub open spec fn spec_point_in_line_bounds(
    px: int,
    py: int,
    x1: int,
    y1: int,
    x2: int,
    y2: int,
) -> bool {
    let lo_x = if x1 > x2 {
        x2
    } else {
        x1
    };
    let hi_x = if x1 > x2 {
        x1
    } else {
        x2
    };
    let lo_y = if y1 > y2 {
        y2
    } else {
        y1
    };
    let hi_y = if y1 > y2 {
        y1
    } else {
        y2
    };
    sat64(lo_x - BOUNDS_ERR as int) <= px && px <= sat64(hi_x + BOUNDS_ERR as int) && sat64(
        lo_y - BOUNDS_ERR as int,
    ) <= py && py <= sat64(hi_y + BOUNDS_ERR as int)
}

/// The segment-bounds test (see [`spec_point_in_line_bounds`]).
pub fn point_in_line_bounds(px: i64, py: i64, x1: i64, y1: i64, x2: i64, y2: i64) -> (r: bool)
    ensures
        r == spec_point_in_line_bounds(
            px as int,
            py as int,
            x1 as int,
            y1 as int,
            x2 as int,
            y2 as int,
        ),
{
    let (lo_x, hi_x) = if x1 > x2 {
        (x2, x1)
    } else {
        (x1, x2)
    };
    let (lo_y, hi_y) = if y1 > y2 {
        (y2, y1)
    } else {
        (y1, y2)
    };
    fx_sub(lo_x, BOUNDS_ERR) <= px && px <= fx_add(hi_x, BOUNDS_ERR) && fx_sub(lo_y, BOUNDS_ERR)
        <= py && py <= fx_add(hi_y, BOUNDS_ERR)
}

/// Whether the edge from vertex `i` to vertex `j` of the transformed
/// polygon comes within the circle's radius: the closest point of the
/// edge's line must fall inside the segment bounds and within squared
/// radius of the circle's center.
pub open spec fn spec_circle_edge_hit(c: Circle, p: Convex2D, rot: Rot2, i: int, j: int) -> bool {
    let a = spec_transformed_vertex(p, rot, i);
    let b = spec_transformed_vertex(p, rot, j);
    let cl = spec_closest_point_to_line(
        c.pos.x as int,
        c.pos.y as int,
        a.x as int,
        a.y as int,
        b.x as int,
        b.y as int,
    );
    &&& spec_point_in_line_bounds(
        cl.0,
        cl.1,
        a.x as int,
        a.y as int,
        b.x as int,
        b.y as int,
    )
    &&& {
        let dx = sat64(cl.0 - c.pos.x);
        let dy = sat64(cl.1 - c.pos.y);
        sat64(spec_fx_mul(dx, dx) + spec_fx_mul(dy, dy)) <= spec_fx_mul(c.r as int, c.r as int)
    }
}

/// The edge-hit test of [`spec_circle_edge_hit`] for ring edge `i`: it
/// runs to the next vertex, or back to the first from the last.
pub open spec fn spec_circle_ring_edge_hit(c: Circle, p: Convex2D, rot: Rot2, i: int) -> bool {
    let n = p.vertices@.len() as int;
    spec_circle_edge_hit(
        c,
        p,
        rot,
        i,
        if i + 1 < n {
            i + 1
        } else {
            0
        },
    )
}

/// A circle collides with a convex polygon when some edge of the
/// polygon's closed ring — under the polygon's current rotation — comes
/// within the circle's radius. A polygon without vertices collides with
/// nothing.
pub open spec fn spec_circle_convex_collide(c: Circle, p: Convex2D) -> bool {
    let n = p.vertices@.len() as int;
    let rot = spec_rot_from_angle(p.angle as int);
    n >= 1 && exists|i: int| 0 <= i < n && #[trigger] spec_circle_ring_edge_hit(c, p, rot, i)
}

/// The collision predicate for a circle against a convex polygon (see
/// [`spec_circle_convex_collide`]): every edge, the wrap-around edge
/// from the last vertex back to the first included, is tested with the
/// closest-point construction.
pub fn circle_convex_check_col(object: &Circle, other: &Convex2D) -> (res: bool)
    ensures
        res == spec_circle_convex_collide(*object, *other),
{
    let n = other.vertices.len();
    if n == 0 {
        return false;
    }
    let ghost rot_g = spec_rot_from_angle(other.angle as int);
    let rot = rot_from_angle(other.angle);
    let mut i: usize = 0;
    while i < n
        invariant
            n == other.vertices@.len(),
            n >= 1,
            i <= n,
            rot == rot_g,
            rot_g == spec_rot_from_angle(other.angle as int),
            forall|k: int|
                0 <= k < i as int ==> !#[trigger] spec_circle_ring_edge_hit(
                    *object,
                    *other,
                    rot_g,
                    k,
                ),
        decreases n - i,
    {
        let j: usize = if i + 1 < n {
            i + 1
        } else {
            0
        };
        let a = other.transformed_vertex(&rot, i);
        let b = other.transformed_vertex(&rot, j);
        let (cl_x, cl_y) = get_closest_point_to_line(
            object.pos.x,
            object.pos.y,
            a.x,
            a.y,
            b.x,
            b.y,
        );
        if point_in_line_bounds(cl_x, cl_y, a.x, a.y, b.x, b.y) {
            let dx = fx_sub(cl_x, object.pos.x);
            let dy = fx_sub(cl_y, object.pos.y);
            let dist_sq = fx_add(fx_mul(dx, dx), fx_mul(dy, dy));
            if dist_sq <= fx_mul(object.r, object.r) {
                proof {
                    assert(spec_circle_edge_hit(*object, *other, rot_g, i as int, j as int));
                    assert(spec_circle_ring_edge_hit(*object, *other, rot_g, i as int));
                    assert(spec_circle_convex_collide(*object, *other));
                }
                return true;
            }
        }
        i = i + 1;
    }
    false
}

/// The corrections for a circle colliding with a convex polygon: both
/// are rolled back by their own velocity, and the polygon is handed the
/// torque of the circle's force applied at the circle's position.
pub open spec fn spec_circle_convex_reset(object: Circle, other: Convex2D) -> (
    TempPhyObjData,
    TempPhyObjData,
) {
    (
        TempPhyObjData {
            pos: spec_rollback_pos(object.pos, object.vel),
            vel: None,
            torque: 0,
        },
        TempPhyObjData {
            pos: spec_rollback_pos(other.pos, other.vel),
            vel: None,
            torque: spec_v2_cross(object.pos, object.force) as i64,
        },
    )
}

/// The correction records for a circle against a convex polygon (see
/// [`spec_circle_convex_reset`]); a pair is always produced.
pub fn circle_convex_pos_reset_to(object: &Circle, other: &Convex2D) -> (r: Option<
    (TempPhyObjData, TempPhyObjData),
>)
    ensures
        r == Some(spec_circle_convex_reset(*object, *other)),
{
    let convex_torque = other.calc_torque(&object.pos, &object.force);
    let t_circle = TempPhyObjData {
        pos: V2 { x: fx_sub(object.pos.x, object.vel.x), y: fx_sub(object.pos.y, object.vel.y) },
        vel: None,
        torque: 0,
    };
    let t_convex = TempPhyObjData {
        pos: V2 { x: fx_sub(other.pos.x, other.vel.x), y: fx_sub(other.pos.y, other.vel.y) },
        vel: None,
        torque: convex_torque,
    };
    Some((t_circle, t_convex))
}

/// Whether ring edge `i` of `c1` is a separating axis: every vertex of
/// `c2` lies strictly in front of it, along the edge's left-hand
/// normal. The normal is left unnormalized — only the sign of the
/// projection matters — so a degenerate zero-length edge, whose normal
/// is zero, separates nothing.
pub open spec fn spec_sat_edge_separates(
    c1: Convex2D,
    c2: Convex2D,
    r1: Rot2,
    r2: Rot2,
    i: int,
) -> bool {
    let n1 = c1.vertices@.len() as int;
    let a = spec_transformed_vertex(c1, r1, i);
    let b = spec_transformed_vertex(
        c1,
        r1,
        if i + 1 < n1 {
            i + 1
        } else {
            0
        },
    );
    let nrm = V2 { x: sat64(-sat64(b.y - a.y)) as i64, y: sat64(b.x - a.x) as i64 };
    forall|j: int|
        0 <= j < c2.vertices@.len() ==> spec_v2_dot(
            spec_v2_sub(#[trigger] spec_transformed_vertex(c2, r2, j), a),
            nrm,
        ) > 0
}

/// The Separating Axis Theorem test, as this engine runs it: the edge
/// normals of the first polygon are tried as axes; the polygons are
/// reported colliding when none of them separates. Shapes with fewer
/// than two vertices collide with nothing.
pub open spec fn spec_sat_col(c1: Convex2D, c2: Convex2D) -> bool {
    let r1 = spec_rot_from_angle(c1.angle as int);
    let r2 = spec_rot_from_angle(c2.angle as int);
    if c1.vertices@.len() < 2 || c2.vertices@.len() < 2 {
        false
    } else {
        !(exists|i: int|
            0 <= i < c1.vertices@.len() && #[trigger] spec_sat_edge_separates(c1, c2, r1, r2, i))
    }
}

/// The Separating Axis Theorem cross-check (see [`spec_sat_col`]).
pub fn sat_col_check(convex1: &Convex2D, convex2: &Convex2D) -> (res: bool)
    ensures
        res == spec_sat_col(*convex1, *convex2),
{
    let n1 = convex1.vertices.len();
    let n2 = convex2.vertices.len();
    if n1 < 2 || n2 < 2 {
        return false;
    }
    let rot1 = rot_from_angle(convex1.angle);
    let rot2 = rot_from_angle(convex2.angle);
    let mut i: usize = 0;
    while i < n1
        invariant
            n1 == convex1.vertices@.len(),
            n2 == convex2.vertices@.len(),
            n1 >= 2,
            n2 >= 2,
            i <= n1,
            rot1 == spec_rot_from_angle(convex1.angle as int),
            rot2 == spec_rot_from_angle(convex2.angle as int),
            forall|k: int|
                0 <= k < i as int ==> !#[trigger] spec_sat_edge_separates(
                    *convex1,
                    *convex2,
                    rot1,
                    rot2,
                    k,
                ),
        decreases n1 - i,
    {
        let j: usize = if i + 1 < n1 {
            i + 1
        } else {
            0
        };
        let a = convex1.transformed_vertex(&rot1, i);
        let b = convex1.transformed_vertex(&rot1, j);
        let nrm = V2 { x: fx_sub(0, fx_sub(b.y, a.y)), y: fx_sub(b.x, a.x) };
        let mut verts_in_front_of_edge = true;
        let mut m: usize = 0;
        while m < n2
            invariant
                n2 == convex2.vertices@.len(),
                m <= n2,
                rot2 == spec_rot_from_angle(convex2.angle as int),
                a == spec_transformed_vertex(*convex1, rot1, i as int),
                b == spec_transformed_vertex(
                    *convex1,
                    rot1,
                    if i as int + 1 < n1 as int {
                        i as int + 1
                    } else {
                        0
                    },
                ),
                i < n1,
                n1 == convex1.vertices@.len(),
                rot1 == spec_rot_from_angle(convex1.angle as int),
                nrm == (V2 { x: sat64(-sat64(b.y - a.y)) as i64, y: sat64(b.x - a.x) as i64 }),
                verts_in_front_of_edge == (forall|jj: int|
                    0 <= jj < m as int ==> spec_v2_dot(
                        spec_v2_sub(#[trigger] spec_transformed_vertex(*convex2, rot2, jj), a),
                        nrm,
                    ) > 0),
            decreases n2 - m,
        {
            let v = convex2.transformed_vertex(&rot2, m);
            if !(v.minus(a).dot(nrm) > 0) {
                verts_in_front_of_edge = false;
            }
            m = m + 1;
        }
        if verts_in_front_of_edge {
            proof {
                assert(spec_sat_edge_separates(*convex1, *convex2, rot1, rot2, i as int));
            }
            return false;
        }
        i = i + 1;
    }
    true
}

/// The strict running maximum of the dot products of the first `k`
/// transformed vertices against `d`, with the point that attained it;
/// the scan starts below every representable product, at the origin.
pub open spec fn spec_support_point_upto(c: Convex2D, rot: Rot2, d: V2, k: int) -> (int, V2)
    decreases k,
{
    if k <= 0 {
        (i64::MIN as int, V2 { x: 0, y: 0 })
    } else {
        let prev = spec_support_point_upto(c, rot, d, k - 1);
        let v = spec_transformed_vertex(c, rot, k - 1);
        let dk = spec_v2_dot(v, d);
        if dk > prev.0 {
            (dk, v)
        } else {
            prev
        }
    }
}

/// The support point of a polygon: its transformed vertex farthest
/// along `d` (the first of equally far ones; the origin when the
/// polygon has no vertices).
pub open spec fn spec_support_point(c: Convex2D, d: V2) -> V2 {
    spec_support_point_upto(
        c,
        spec_rot_from_angle(c.angle as int),
        d,
        c.vertices@.len() as int,
    ).1
}

/// Finds the farthest transformed vertex in direction `d` (see
/// [`spec_support_point`]).
pub fn get_support_point(convex: &Convex2D, d: &V2) -> (r: V2)
    ensures
        r == spec_support_point(*convex, *d),
{
    let mut highest: i64 = i64::MIN;
    let mut support = V2 { x: 0, y: 0 };
    let rot = rot_from_angle(convex.angle);
    let n = convex.vertices.len();
    let mut i: usize = 0;
    while i < n
        invariant
            n == convex.vertices@.len(),
            i <= n,
            rot == spec_rot_from_angle(convex.angle as int),
            (highest as int, support) == spec_support_point_upto(*convex, rot, *d, i as int),
        decreases n - i,
    {
        let v = convex.transformed_vertex(&rot, i);
        let dot = v.dot(*d);
        if dot > highest {
            highest = dot;
            support = v;
        }
        i = i + 1;
    }
    support
}

/// The support point of the Minkowski difference of the two polygons:
/// the farthest vertex of the first along `d` minus the farthest vertex
/// of the second along `-d`.
pub open spec fn spec_support_minkowski(c1: Convex2D, c2: Convex2D, d: V2) -> V2 {
    spec_v2_sub(
        spec_support_point(c1, d),
        spec_support_point(c2, spec_v2_scale(d, -(SCALE as int))),
    )
}

/// The Minkowski-difference support point (see
/// [`spec_support_minkowski`]).
pub fn get_support_in_minkowski_diff(convex1: &Convex2D, convex2: &Convex2D, d: &V2) -> (r: V2)
    ensures
        r == spec_support_minkowski(*convex1, *convex2, *d),
{
    let c1_fp = get_support_point(convex1, d);
    let c2_fp = get_support_point(convex2, &d.scaled(-SCALE));
    c1_fp.minus(c2_fp)
}

/// The whole Minkowski difference of the two transformed polygons: one
/// entry per ordered vertex pair, the pairs of one first vertex
/// adjacent. The collision tests never need all of it — they sample it
/// through [`spec_support_minkowski`] — but it is the set whose
/// containing-origin status the GJK test decides.
pub open spec fn spec_minkowski_difference(c1: Convex2D, c2: Convex2D) -> Seq<V2> {
    let r1 = spec_rot_from_angle(c1.angle as int);
    let r2 = spec_rot_from_angle(c2.angle as int);
    let n2 = c2.vertices@.len() as int;
    Seq::new(
        (c1.vertices@.len() * c2.vertices@.len()) as nat,
        |m: int|
            spec_v2_sub(
                spec_transformed_vertex(c1, r1, m / n2),
                spec_transformed_vertex(c2, r2, m % n2),
            ),
    )
}

/// Enumerates the Minkowski difference (see
/// [`spec_minkowski_difference`]).
pub fn minkowski_difference(convex1: &Convex2D, convex2: &Convex2D) -> (r: Vec<V2>)
    ensures
        r@ == spec_minkowski_difference(*convex1, *convex2),
{
    let n1 = convex1.vertices.len();
    let n2 = convex2.vertices.len();
    let rot1 = rot_from_angle(convex1.angle);
    let rot2 = rot_from_angle(convex2.angle);
    let mut resulting_shape: Vec<V2> = Vec::new();
    let ghost target = spec_minkowski_difference(*convex1, *convex2);
    let mut i: usize = 0;
    while i < n1
        invariant
            n1 == convex1.vertices@.len(),
            n2 == convex2.vertices@.len(),
            i <= n1,
            rot1 == spec_rot_from_angle(convex1.angle as int),
            rot2 == spec_rot_from_angle(convex2.angle as int),
            target == spec_minkowski_difference(*convex1, *convex2),
            target.len() == n1 * n2,
            resulting_shape@.len() == i * n2,
            forall|m: int|
                0 <= m < resulting_shape@.len() ==> #[trigger] resulting_shape@[m] == target[m],
        decreases n1 - i,
    {
        let c1_vert = convex1.transformed_vertex(&rot1, i);
        let mut j: usize = 0;
        while j < n2
            invariant
                n1 == convex1.vertices@.len(),
                n2 == convex2.vertices@.len(),
                i < n1,
                j <= n2,
                rot1 == spec_rot_from_angle(convex1.angle as int),
                rot2 == spec_rot_from_angle(convex2.angle as int),
                c1_vert == spec_transformed_vertex(*convex1, rot1, i as int),
                target == spec_minkowski_difference(*convex1, *convex2),
                target.len() == n1 * n2,
                resulting_shape@.len() == i * n2 + j,
                forall|m: int|
                    0 <= m < resulting_shape@.len() ==> #[trigger] resulting_shape@[m] == target[m],
            decreases n2 - j,
        {
            let c2_vert = convex2.transformed_vertex(&rot2, j);
            proof {
                let m = i * n2 + j;
                assert(0 <= m < n1 * n2) by (nonlinear_arith)
                    requires
                        m == i * n2 + j,
                        0 <= i < n1,
                        0 <= j < n2,
                ;
                vstd::arithmetic::div_mod::lemma_fundamental_div_mod_converse(
                    m as int,
                    n2 as int,
                    i as int,
                    j as int,
                );
            }
            resulting_shape.push(c1_vert.minus(c2_vert));
            j = j + 1;
        }
        proof {
            assert((i + 1) * n2 == i * n2 + n2) by (nonlinear_arith);
        }
        i = i + 1;
    }
    proof {
        assert(resulting_shape@ =~= target);
    }
    resulting_shape
}

/// The vector triple product `b * (c . a) - a * (c . b)`: the direction
/// perpendicular to `a`, on the side of `b`.
pub open spec fn spec_triple_product(a: V2, b: V2, c: V2) -> V2 {
    spec_v2_sub(spec_v2_scale(b, spec_v2_dot(c, a)), spec_v2_scale(a, spec_v2_dot(c, b)))
}

/// The vector triple product (see [`spec_triple_product`]).
pub fn triple_product(a: V2, b: V2, c: V2) -> (r: V2)
    ensures
        r == spec_triple_product(a, b, c),
{
    b.scaled(c.dot(a)).minus(a.scaled(c.dot(b)))
}

/// One refinement of the GJK simplex: the new simplex, the next search
/// direction, and whether the 3-point simplex has been shown to enclose
/// the origin. A 3-point simplex drops the vertex on the far side of
/// the edge closest to the origin; a 2-point one searches perpendicular
/// to its edge, toward the origin.
pub open spec fn spec_simplex_step(s: Seq<V2>, d: V2) -> (Seq<V2>, V2, bool)
    recommends
        2 <= s.len() <= 3,
{
    let a = s.last();
    let ao = spec_v2_scale(a, -(SCALE as int));
    if s.len() == 3 {
        let b = s[0];
        let c = s[1];
        let ab = spec_v2_sub(b, a);
        let ac = spec_v2_sub(c, a);
        let ab_perp = spec_triple_product(ac, ab, ab);
        let ac_perp = spec_triple_product(ab, ac, ac);
        if spec_v2_dot(ab_perp, ao) > 0 {
            (s.remove(1), ab_perp, false)
        } else if spec_v2_dot(ac_perp, ao) > 0 {
            (s.remove(0), ac_perp, false)
        } else {
            (s, d, true)
        }
    } else {
        let b = s[0];
        let ab = spec_v2_sub(b, a);
        let ab_perp = spec_triple_product(ab, ao, ab);
        (s, ab_perp, false)
    }
}

/// Refines the growing simplex in place (see [`spec_simplex_step`]):
/// reports true once the simplex encloses the origin, otherwise updates
/// the search direction (and, for a triangle, drops one vertex).
pub fn simplex_contains_origin(simplex: &mut Vec<V2>, d: &mut V2) -> (r: bool)
    requires
        2 <= old(simplex)@.len() <= 3,
    ensures
        ({
            let step = spec_simplex_step(old(simplex)@, *old(d));
            &&& final(simplex)@ == step.0
            &&& *final(d) == step.1
            &&& r == step.2
        }),
{
    let a = simplex[simplex.len() - 1];
    let ao = a.scaled(-SCALE);
    if simplex.len() == 3 {
        let b = simplex[0];
        let c = simplex[1];
        let ab = b.minus(a);
        let ac = c.minus(a);
        let ab_perp = triple_product(ac, ab, ab);
        let ac_perp = triple_product(ab, ac, ac);
        if ab_perp.dot(ao) > 0 {
            simplex.remove(1);
            *d = ab_perp;
            false
        } else if ac_perp.dot(ao) > 0 {
            simplex.remove(0);
            *d = ac_perp;
            false
        } else {
            true
        }
    } else {
        let b = simplex[0];
        let ab = b.minus(a);
        let ab_perp = triple_product(ab, ao, ab);
        *d = ab_perp;
        false
    }
}

/// The iteration bound of the GJK loop: past it, the test gives up and
/// reports no collision (truncated fixed-point arithmetic cannot be
/// shown to close the simplex in general).
pub const GJK_MAX_ITERS: usize = 64;

/// One GJK iteration over the state `(simplex, direction)`: a new
/// support point is added; if it fails to pass the origin along the
/// search direction there is no collision, otherwise the simplex is
/// refined and may be found to enclose the origin.
pub open spec fn spec_gjk_advance(c1: Convex2D, c2: Convex2D, s: Seq<V2>, d: V2) -> (
    Seq<V2>,
    V2,
    Option<bool>,
) {
    let p = spec_support_minkowski(c1, c2, d);
    let s1 = s.push(p);
    if spec_v2_dot(p, d) <= 0 {
        (s1, d, Some(false))
    } else {
        let st = spec_simplex_step(s1, d);
        if st.2 {
            (st.0, st.1, Some(true))
        } else {
            (st.0, st.1, None)
        }
    }
}

/// The GJK state after `k` iterations; once an iteration has decided,
/// the decision is carried through unchanged.
pub open spec fn spec_gjk_iters(c1: Convex2D, c2: Convex2D, s: Seq<V2>, d: V2, k: nat) -> (
    Seq<V2>,
    V2,
    Option<bool>,
)
    decreases k,
{
    if k == 0 {
        (s, d, None)
    } else {
        let prev = spec_gjk_iters(c1, c2, s, d, (k - 1) as nat);
        if prev.2 is Some {
            prev
        } else {
            spec_gjk_advance(c1, c2, prev.0, prev.1)
        }
    }
}

/// A decided GJK run stays decided.
proof fn lemma_gjk_decided_stays(c1: Convex2D, c2: Convex2D, s: Seq<V2>, d: V2, k1: nat, k2: nat)
    requires
        k1 <= k2,
        spec_gjk_iters(c1, c2, s, d, k1).2 is Some,
    ensures
        spec_gjk_iters(c1, c2, s, d, k2) == spec_gjk_iters(c1, c2, s, d, k1),
    decreases k2,
{
    if k2 > k1 {
        lemma_gjk_decided_stays(c1, c2, s, d, k1, (k2 - 1) as nat);
    }
}

/// What the whole GJK run reports: the verdict of the first deciding
/// iteration within the bound, or no collision when the bound runs out.
pub open spec fn spec_gjk_result(c1: Convex2D, c2: Convex2D) -> bool {
    let d_init = spec_v2_sub(c2.pos, c1.pos);
    let s0 = seq![spec_support_minkowski(c1, c2, d_init)];
    let d0 = spec_v2_scale(d_init, -(SCALE as int));
    let fin = spec_gjk_iters(c1, c2, s0, d0, GJK_MAX_ITERS as nat);
    match fin.2 {
        Some(b) => b,
        None => false,
    }
}

/// The GJK collision test over the Minkowski difference of the two
/// transformed polygons (see [`spec_gjk_result`]).
pub fn gjk_col_check(convex1: &Convex2D, convex2: &Convex2D) -> (res: bool)
    ensures
        res == spec_gjk_result(*convex1, *convex2),
{
    let mut d = convex2.pos.minus(convex1.pos);
    let mut simplex: Vec<V2> = Vec::new();
    simplex.push(get_support_in_minkowski_diff(convex1, convex2, &d));
    d = d.scaled(-SCALE);
    let ghost s0 = simplex@;
    let ghost d0 = d;
    let mut it: usize = 0;
    while it < GJK_MAX_ITERS
        invariant
            it <= GJK_MAX_ITERS,
            1 <= simplex@.len() <= 2,
            spec_gjk_iters(*convex1, *convex2, s0, d0, it as nat) == (simplex@, d, None::<bool>),
            s0 == seq![
                spec_support_minkowski(
                    *convex1,
                    *convex2,
                    spec_v2_sub(convex2.pos, convex1.pos),
                ),
            ],
            d0 == spec_v2_scale(spec_v2_sub(convex2.pos, convex1.pos), -(SCALE as int)),
        decreases GJK_MAX_ITERS - it,
    {
        let p = get_support_in_minkowski_diff(convex1, convex2, &d);
        simplex.push(p);
        if p.dot(d) <= 0 {
            proof {
                assert(spec_gjk_iters(*convex1, *convex2, s0, d0, (it + 1) as nat).2 == Some(
                    false,
                ));
                lemma_gjk_decided_stays(
                    *convex1,
                    *convex2,
                    s0,
                    d0,
                    (it + 1) as nat,
                    GJK_MAX_ITERS as nat,
                );
            }
            return false;
        }
        if simplex_contains_origin(&mut simplex, &mut d) {
            proof {
                assert(spec_gjk_iters(*convex1, *convex2, s0, d0, (it + 1) as nat).2 == Some(
                    true,
                ));
                lemma_gjk_decided_stays(
                    *convex1,
                    *convex2,
                    s0,
                    d0,
                    (it + 1) as nat,
                    GJK_MAX_ITERS as nat,
                );
            }
            return true;
        }
        it = it + 1;
    }
    false
}

/// The convex–convex collision predicate: it delegates to GJK (the
/// Separating Axis Theorem test above is kept as a cross-check).
pub fn convex_convex_collision(convex1: &Convex2D, convex2: &Convex2D) -> (r: bool)
    ensures
        r == spec_gjk_result(*convex1, *convex2),
{
    gjk_col_check(convex1, convex2)
}

/// The corrections for two colliding convex polygons: both are rolled
/// back by their own velocity; no torque is staged for this pair.
pub open spec fn spec_convex_convex_reset(object: Convex2D, other: Convex2D) -> (
    TempPhyObjData,
    TempPhyObjData,
) {
    (
        TempPhyObjData {
            pos: spec_rollback_pos(object.pos, object.vel),
            vel: None,
            torque: 0,
        },
        TempPhyObjData { pos: spec_rollback_pos(other.pos, other.vel), vel: None, torque: 0 },
    )
}

/// The correction records for two convex polygons (see
/// [`spec_convex_convex_reset`]); a pair is always produced.
pub fn convex_convex_pos_reset_to(object: &Convex2D, other: &Convex2D) -> (r: Option<
    (TempPhyObjData, TempPhyObjData),
>)
    ensures
        r == Some(spec_convex_convex_reset(*object, *other)),
{
    let t_convex1 = TempPhyObjData {
        pos: V2 { x: fx_sub(object.pos.x, object.vel.x), y: fx_sub(object.pos.y, object.vel.y) },
        vel: None,
        torque: 0,
    };
    let t_convex2 = TempPhyObjData {
        pos: V2 { x: fx_sub(other.pos.x, other.vel.x), y: fx_sub(other.pos.y, other.vel.y) },
        vel: None,
        torque: 0,
    };
    Some((t_convex1, t_convex2))
}

} // verus!
