//! The convex polygon body.
//!
//! Vertices are stored in local space and are never translated or
//! rotated in storage; the transform of the current position and angle
//! is applied on demand, one vertex at a time.

use crate::fixed::{fx_add, fx_div, fx_mul, sat64, spec_fx_div, spec_fx_mul};
use crate::vec2::{spec_rot_apply, spec_v2_add, spec_v2_cross, Rot2, V2};
use vstd::prelude::*;

verus! {

/// A convex polygon body: an ordered, implicitly closed ring of local
/// vertices around its position, and the kinematic state every body
/// carries.
pub struct Convex2D {
    pub static_body: bool,
    pub pos: V2,
    pub m: i64,
    pub force: V2,
    pub torque: i64,
    pub vel: V2,
    pub angle: i64,
    pub ang_vel: i64,
    pub vertices: Vec<V2>,
    pub inertia: i64,
    pub id: usize,
    pub nodes: Vec<usize>,
}

/// The saturating sum of the squared magnitudes of the first `k`
/// vertices.
pub open spec fn spec_vertex_sq_sum(vertices: Seq<V2>, k: int) -> int
    decreases k,
{
    if k <= 0 {
        0
    } else {
        sat64(
            spec_vertex_sq_sum(vertices, k - 1) + sat64(
                spec_fx_mul(vertices[k - 1].x as int, vertices[k - 1].x as int) + spec_fx_mul(
                    vertices[k - 1].y as int,
                    vertices[k - 1].y as int,
                ),
            ),
        )
    }
}

/// The moment of inertia the polygon carries: its mass times the sum of
/// its vertices' squared distances from the origin. This deliberately
/// simple sum, not the exact planar second moment, is the value the
/// rest of the engine is calibrated against.
pub open spec fn spec_convex_inertia(c: Convex2D) -> int {
    spec_fx_mul(c.m as int, spec_vertex_sq_sum(c.vertices@, c.vertices@.len() as int))
}

/// Vertex `i` carried into world space: rotated, then translated by the
/// current position.
pub open spec fn spec_transformed_vertex(c: Convex2D, rot: Rot2, i: int) -> V2 {
    spec_v2_add(spec_rot_apply(rot, c.vertices@[i]), c.pos)
}

impl Convex2D {
    /// A polygon at `(x, y)` over the given local vertex ring, with mass
    /// `m`, at rest; its moment of inertia is computed once, here.
    pub fn new(x: i64, y: i64, vertices: Vec<V2>, m: i64) -> (c: Convex2D)
        ensures
            c.static_body == false,
            c.pos == (V2 { x, y }),
            c.m == m,
            c.force == (V2 { x: 0, y: 0 }),
            c.vel == (V2 { x: 0, y: 0 }),
            c.torque == 0,
            c.angle == 0,
            c.ang_vel == 0,
            c.vertices@ == vertices@,
            c.inertia as int == spec_convex_inertia(c),
            c.id == 0,
            c.nodes@ == Seq::<usize>::empty(),
    {
        let mut convex = Convex2D {
            static_body: false,
            pos: V2 { x, y },
            force: V2 { x: 0, y: 0 },
            vel: V2 { x: 0, y: 0 },
            vertices,
            m,
            torque: 0,
            angle: 0,
            ang_vel: 0,
            inertia: crate::fixed::SCALE,
            id: 0,
            nodes: Vec::new(),
        };
        let inertia = convex.calc_inertia();
        convex.inertia = inertia;
        convex
    }

    /// Recomputes the moment of inertia from the stored vertices (see
    /// [`spec_convex_inertia`]).
    pub fn calc_inertia(&self) -> (r: i64)
        ensures
            r as int == spec_convex_inertia(*self),
    {
        let n = self.vertices.len();
        let mut sigma_dist_sq: i64 = 0;
        let mut i: usize = 0;
        while i < n
            invariant
                i <= n,
                n == self.vertices@.len(),
                sigma_dist_sq as int == spec_vertex_sq_sum(self.vertices@, i as int),
            decreases n - i,
        {
            let v = self.vertices[i];
            sigma_dist_sq = fx_add(sigma_dist_sq, fx_add(fx_mul(v.x, v.x), fx_mul(v.y, v.y)));
            i = i + 1;
        }
        fx_mul(self.m, sigma_dist_sq)
    }

    /// The scalar torque a force `f` applied at the offset `r` produces:
    /// the 2D cross product `r.x * f.y - r.y * f.x`.
    pub fn calc_torque(&self, r: &V2, f: &V2) -> (t: i64)
        ensures
            t as int == spec_v2_cross(*r, *f),
    {
        r.cross(*f)
    }

    /// The angular acceleration the current torque produces against the
    /// stored moment of inertia; a degenerate zero inertia yields zero.
    pub fn calc_angular_accel(&self) -> (r: i64)
        ensures
            r as int == spec_fx_div(self.torque as int, self.inertia as int),
    {
        fx_div(self.torque, self.inertia)
    }

    /// Vertex `vertex_index` carried into world space (see
    /// [`spec_transformed_vertex`]).
    pub fn transformed_vertex(&self, rot: &Rot2, vertex_index: usize) -> (r: V2)
        requires
            vertex_index < self.vertices@.len(),
        ensures
            r == spec_transformed_vertex(*self, *rot, vertex_index as int),
    {
        let v = self.vertices[vertex_index];
        rot.apply(v).plus(self.pos)
    }

    /// Whether this body is pinned in place: a static body never
    /// integrates and never receives gravity.
    pub fn is_static(&self) -> (r: bool)
        ensures
            r == self.static_body,
    {
        self.static_body
    }
}

} // verus!
