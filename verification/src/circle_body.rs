//! The circular body.

use crate::fixed::{fx_add, fx_sub, sat64};
use crate::vec2::V2;
use vstd::prelude::*;

verus! {

/// A circular rigid body: a center, a radius, and the kinematic state
/// every body carries.
pub struct Circle {
    pub id: usize,
    pub nodes: Vec<usize>,
    pub pos: V2,
    pub r: i64,
    pub m: i64,
    pub force: V2,
    pub vel: V2,
    pub torque: i64,
    pub angle: i64,
    pub ang_vel: i64,
    pub inertia: i64,
}

/// Whether a circle, moved one step by its current velocity, pokes over
/// either of two axis-aligned lines: below `line_coord1` or above
/// `line_coord2`, on the x axis (`horizontal` false) or the y axis
/// (`horizontal` true).
pub open spec fn spec_circle_crosses_aabb_line(
    c: Circle,
    line_coord1: int,
    line_coord2: int,
    horizontal: bool,
) -> bool {
    if !horizontal {
        sat64(sat64(c.pos.x + c.vel.x) - c.r) <= line_coord1 || sat64(
            sat64(c.pos.x + c.vel.x) + c.r,
        ) >= line_coord2
    } else {
        sat64(sat64(c.pos.y + c.vel.y) - c.r) <= line_coord1 || sat64(
            sat64(c.pos.y + c.vel.y) + c.r,
        ) >= line_coord2
    }
}

impl Circle {
    /// A circle at `(x, y)` with radius `r` and mass `m`, at rest: no
    /// velocity, force, torque or spin, with unit moment of inertia.
    pub fn new(id: usize, x: i64, y: i64, r: i64, m: i64) -> (c: Circle)
        ensures
            c.id == id,
            c.nodes@ == Seq::<usize>::empty(),
            c.pos == (V2 { x, y }),
            c.r == r,
            c.m == m,
            c.force == (V2 { x: 0, y: 0 }),
            c.vel == (V2 { x: 0, y: 0 }),
            c.torque == 0,
            c.angle == 0,
            c.ang_vel == 0,
            c.inertia == crate::fixed::SCALE,
    {
        Circle {
            id,
            nodes: Vec::new(),
            pos: V2 { x, y },
            r,
            m,
            force: V2 { x: 0, y: 0 },
            vel: V2 { x: 0, y: 0 },
            torque: 0,
            angle: 0,
            ang_vel: 0,
            inertia: crate::fixed::SCALE,
        }
    }

    /// The boundary-proximity test used for world-bound clamping (see
    /// [`spec_circle_crosses_aabb_line`]).
    pub fn check_col_with_aabb_line(&self, line_coord1: i64, line_coord2: i64, horizontal: bool) -> (r: bool)
        ensures
            r == spec_circle_crosses_aabb_line(
                *self,
                line_coord1 as int,
                line_coord2 as int,
                horizontal,
            ),
    {
        if !horizontal {
            fx_sub(fx_add(self.pos.x, self.vel.x), self.r) <= line_coord1 || fx_add(
                fx_add(self.pos.x, self.vel.x),
                self.r,
            ) >= line_coord2
        } else {
            fx_sub(fx_add(self.pos.y, self.vel.y), self.r) <= line_coord1 || fx_add(
                fx_add(self.pos.y, self.vel.y),
                self.r,
            ) >= line_coord2
        }
    }
}

} // verus!
