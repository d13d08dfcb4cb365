//! The closed set of body kinds, and the shared view of their state.
//!
//! The collision-relation matrix of the engine is closed and finite, so
//! bodies are a tagged union rather than open dynamic dispatch: the
//! narrow-phase dispatcher matches exhaustively on the shape tags.

use crate::circle_body::Circle;
use crate::convex_body::Convex2D;
use crate::vec2::{spec_v2_add, V2};
use vstd::prelude::*;

verus! {

/// A rigid body of either supported shape kind.
pub enum Body {
    Circle(Circle),
    Convex(Convex2D),
}

/// The shape tag a body reports to the collision dispatcher.
#[derive(Clone, Copy, PartialEq, Eq, Structural, Debug)]
pub enum CollisionType {
    NoCollision,
    Circle,
    Line,
    Rectangle,
    Convex,
}

impl Body {
    /// The body's position.
    pub open spec fn spec_pos(&self) -> V2 {
        match self {
            Body::Circle(c) => c.pos,
            Body::Convex(v) => v.pos,
        }
    }

    /// The body's linear velocity.
    pub open spec fn spec_vel(&self) -> V2 {
        match self {
            Body::Circle(c) => c.vel,
            Body::Convex(v) => v.vel,
        }
    }

    /// The body's force accumulator.
    pub open spec fn spec_force(&self) -> V2 {
        match self {
            Body::Circle(c) => c.force,
            Body::Convex(v) => v.force,
        }
    }

    /// The body's mass.
    pub open spec fn spec_mass(&self) -> int {
        match self {
            Body::Circle(c) => c.m as int,
            Body::Convex(v) => v.m as int,
        }
    }

    /// The body's torque accumulator.
    pub open spec fn spec_torque(&self) -> int {
        match self {
            Body::Circle(c) => c.torque as int,
            Body::Convex(v) => v.torque as int,
        }
    }

    /// The body's orientation, in fixed-point radians.
    pub open spec fn spec_angle(&self) -> int {
        match self {
            Body::Circle(c) => c.angle as int,
            Body::Convex(v) => v.angle as int,
        }
    }

    /// The body's angular velocity.
    pub open spec fn spec_ang_vel(&self) -> int {
        match self {
            Body::Circle(c) => c.ang_vel as int,
            Body::Convex(v) => v.ang_vel as int,
        }
    }

    /// The body's moment of inertia.
    pub open spec fn spec_inertia(&self) -> int {
        match self {
            Body::Circle(c) => c.inertia as int,
            Body::Convex(v) => v.inertia as int,
        }
    }

    /// The body's identity.
    pub open spec fn spec_id(&self) -> int {
        match self {
            Body::Circle(c) => c.id as int,
            Body::Convex(v) => v.id as int,
        }
    }

    /// Whether the body is pinned in place.
    pub open spec fn spec_is_static(&self) -> bool {
        match self {
            Body::Circle(_) => false,
            Body::Convex(v) => v.static_body,
        }
    }

    /// The same body at another position.
    pub open spec fn spec_with_pos(self, p: V2) -> Body {
        match self {
            Body::Circle(c) => Body::Circle(Circle { pos: p, ..c }),
            Body::Convex(v) => Body::Convex(Convex2D { pos: p, ..v }),
        }
    }

    /// The same body with another linear velocity.
    pub open spec fn spec_with_vel(self, w: V2) -> Body {
        match self {
            Body::Circle(c) => Body::Circle(Circle { vel: w, ..c }),
            Body::Convex(v) => Body::Convex(Convex2D { vel: w, ..v }),
        }
    }

    /// The same body with another force accumulator.
    pub open spec fn spec_with_force(self, f: V2) -> Body {
        match self {
            Body::Circle(c) => Body::Circle(Circle { force: f, ..c }),
            Body::Convex(v) => Body::Convex(Convex2D { force: f, ..v }),
        }
    }

    /// The same body with another torque accumulator.
    pub open spec fn spec_with_torque(self, t: int) -> Body {
        match self {
            Body::Circle(c) => Body::Circle(Circle { torque: t as i64, ..c }),
            Body::Convex(v) => Body::Convex(Convex2D { torque: t as i64, ..v }),
        }
    }

    /// The same body at another orientation.
    pub open spec fn spec_with_angle(self, a: int) -> Body {
        match self {
            Body::Circle(c) => Body::Circle(Circle { angle: a as i64, ..c }),
            Body::Convex(v) => Body::Convex(Convex2D { angle: a as i64, ..v }),
        }
    }

    /// The same body with another angular velocity.
    pub open spec fn spec_with_ang_vel(self, a: int) -> Body {
        match self {
            Body::Circle(c) => Body::Circle(Circle { ang_vel: a as i64, ..c }),
            Body::Convex(v) => Body::Convex(Convex2D { ang_vel: a as i64, ..v }),
        }
    }

    /// The same body under another identity.
    pub open spec fn spec_with_id(self, id: int) -> Body {
        match self {
            Body::Circle(c) => Body::Circle(Circle { id: id as usize, ..c }),
            Body::Convex(v) => Body::Convex(Convex2D { id: id as usize, ..v }),
        }
    }

    /// The body's position.
    pub fn get_pos(&self) -> (r: V2)
        ensures
            r == self.spec_pos(),
    {
        match self {
            Body::Circle(c) => c.pos,
            Body::Convex(v) => v.pos,
        }
    }

    /// The body's linear velocity.
    pub fn get_vel(&self) -> (r: V2)
        ensures
            r == self.spec_vel(),
    {
        match self {
            Body::Circle(c) => c.vel,
            Body::Convex(v) => v.vel,
        }
    }

    /// The body's force accumulator.
    pub fn get_force(&self) -> (r: V2)
        ensures
            r == self.spec_force(),
    {
        match self {
            Body::Circle(c) => c.force,
            Body::Convex(v) => v.force,
        }
    }

    /// The body's mass.
    pub fn get_mass(&self) -> (r: i64)
        ensures
            r as int == self.spec_mass(),
    {
        match self {
            Body::Circle(c) => c.m,
            Body::Convex(v) => v.m,
        }
    }

    /// The body's torque accumulator.
    pub fn get_torque(&self) -> (r: i64)
        ensures
            r as int == self.spec_torque(),
    {
        match self {
            Body::Circle(c) => c.torque,
            Body::Convex(v) => v.torque,
        }
    }

    /// The body's orientation, in fixed-point radians.
    pub fn get_angle(&self) -> (r: i64)
        ensures
            r as int == self.spec_angle(),
    {
        match self {
            Body::Circle(c) => c.angle,
            Body::Convex(v) => v.angle,
        }
    }

    /// The body's angular velocity.
    pub fn get_angular_accel(&self) -> (r: i64)
        ensures
            r as int == self.spec_ang_vel(),
    {
        match self {
            Body::Circle(c) => c.ang_vel,
            Body::Convex(v) => v.ang_vel,
        }
    }

    /// The body's moment of inertia.
    pub fn get_inertia(&self) -> (r: i64)
        ensures
            r as int == self.spec_inertia(),
    {
        match self {
            Body::Circle(c) => c.inertia,
            Body::Convex(v) => v.inertia,
        }
    }

    /// The body's identity.
    pub fn get_id(&self) -> (r: usize)
        ensures
            r as int == self.spec_id(),
    {
        match self {
            Body::Circle(c) => c.id,
            Body::Convex(v) => v.id,
        }
    }

    /// The body's adjacency list.
    pub fn get_connections(&self) -> (r: &Vec<usize>)
        ensures
            match self {
                Body::Circle(c) => r@ == c.nodes@,
                Body::Convex(v) => r@ == v.nodes@,
            },
    {
        match self {
            Body::Circle(c) => &c.nodes,
            Body::Convex(v) => &v.nodes,
        }
    }

    /// Whether the body is pinned in place: a static body never
    /// integrates and never receives gravity.
    pub fn is_static(&self) -> (r: bool)
        ensures
            r == self.spec_is_static(),
    {
        match self {
            Body::Circle(_) => false,
            Body::Convex(v) => v.static_body,
        }
    }

    /// The shape tag the collision dispatcher selects a relation by.
    pub fn get_col_type(&self) -> (r: CollisionType)
        ensures
            r == (match self {
                Body::Circle(_) => CollisionType::Circle,
                Body::Convex(_) => CollisionType::Convex,
            }),
    {
        match self {
            Body::Circle(_) => CollisionType::Circle,
            Body::Convex(_) => CollisionType::Convex,
        }
    }

    /// Moves the body to a position.
    pub fn set_pos(&mut self, p: V2)
        ensures
            *final(self) == old(self).spec_with_pos(p),
    {
        match self {
            Body::Circle(c) => {
                c.pos = p;
            },
            Body::Convex(v) => {
                v.pos = p;
            },
        }
    }

    /// Translates the body by a delta.
    pub fn add_pos(&mut self, delta: &V2)
        ensures
            *final(self) == old(self).spec_with_pos(spec_v2_add(old(self).spec_pos(), *delta)),
    {
        let p = self.get_pos().plus(*delta);
        self.set_pos(p);
    }

    /// Sets the body's linear velocity.
    pub fn set_vel(&mut self, w: V2)
        ensures
            *final(self) == old(self).spec_with_vel(w),
    {
        match self {
            Body::Circle(c) => {
                c.vel = w;
            },
            Body::Convex(v) => {
                v.vel = w;
            },
        }
    }

    /// Sets the body's force accumulator.
    pub fn set_force(&mut self, f: V2)
        ensures
            *final(self) == old(self).spec_with_force(f),
    {
        match self {
            Body::Circle(c) => {
                c.force = f;
            },
            Body::Convex(v) => {
                v.force = f;
            },
        }
    }

    /// Sets the body's torque accumulator.
    pub fn set_torque(&mut self, t: i64)
        ensures
            *final(self) == old(self).spec_with_torque(t as int),
    {
        match self {
            Body::Circle(c) => {
                c.torque = t;
            },
            Body::Convex(v) => {
                v.torque = t;
            },
        }
    }

    /// Turns the body to an orientation.
    pub fn set_angle(&mut self, a: i64)
        ensures
            *final(self) == old(self).spec_with_angle(a as int),
    {
        match self {
            Body::Circle(c) => {
                c.angle = a;
            },
            Body::Convex(v) => {
                v.angle = a;
            },
        }
    }

    /// Sets the body's angular velocity.
    pub fn set_angular_accel(&mut self, a: i64)
        ensures
            *final(self) == old(self).spec_with_ang_vel(a as int),
    {
        match self {
            Body::Circle(c) => {
                c.ang_vel = a;
            },
            Body::Convex(v) => {
                v.ang_vel = a;
            },
        }
    }

    /// Renames the body.
    pub fn set_id(&mut self, id: usize)
        ensures
            *final(self) == old(self).spec_with_id(id as int),
    {
        match self {
            Body::Circle(c) => {
                c.id = id;
            },
            Body::Convex(v) => {
                v.id = id;
            },
        }
    }
}

} // verus!
