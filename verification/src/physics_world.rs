//! The world: the arena of bodies and the per-step simulation pipeline.
//!
//! One call to [`World::simulation_step`] runs, in strict order: zero
//! every force accumulator, apply gravity, integrate velocity,
//! integrate position, and resolve collisions (world-bound clamp,
//! pairwise narrow phase with staged corrections, one commit).

use crate::body::Body;
use crate::fixed::{fx_add, fx_clamp, fx_div, fx_mul, sat64, spec_clamp, spec_fx_div, spec_fx_mul, SCALE};
use crate::gen_vec::{lemma_wf_after_value_update, spec_value_update, GenVec};
use crate::vec2::{spec_v2_add, spec_v2_div, spec_v2_scale, spec_v2_sub, V2};
use vstd::prelude::*;

verus! {

/// A staged per-body correction computed during the collision pass and
/// committed only after every pair has been examined: the position to
/// roll back to, an optional velocity to overwrite with, and the torque
/// to carry.
#[derive(Clone, Copy, PartialEq, Eq, Structural, Debug)]
pub struct TempPhyObjData {
    pub pos: V2,
    pub vel: Option<V2>,
    pub torque: i64,
}

/// The fixed factor gravity forces are scaled by.
pub const GRAVITY_FACTOR: i64 = 900;

/// The bound on each velocity component, applied every step.
pub const VEL_CLAMP: i64 = 10_000;

/// The linear damping factor applied to velocity every step.
pub const DAMPING: i64 = 990_000;

/// The edge of the fixed square simulation domain.
pub const BOUND_LIMIT: i64 = 990_000;

/// Where a body is snapped back to after violating a bound.
pub const BOUND_SNAP: i64 = 980_000;

/// The restitution factor applied to the force on a violated axis.
pub const FORCE_RESTITUTION: i64 = -400_000;

/// The factor applied to the velocity on a violated axis: a plain sign
/// flip.
pub const VEL_FLIP: i64 = -1_000_000;

/// A body with its force accumulator cleared.
pub open spec fn spec_body_zero_forces(b: Body) -> Body {
    b.spec_with_force(V2 { x: 0, y: 0 })
}

/// A body after the gravity phase: a non-static body accumulates
/// `mass * gravity * GRAVITY_FACTOR`; a static one feels nothing.
pub open spec fn spec_body_gravity(b: Body, gravity: V2) -> Body {
    if b.spec_is_static() {
        b
    } else {
        let g_force = spec_v2_scale(spec_v2_scale(gravity, b.spec_mass()), GRAVITY_FACTOR as int);
        b.spec_with_force(spec_v2_add(b.spec_force(), g_force))
    }
}

/// A body after the velocity phase: both velocity components are
/// clamped into `[-VEL_CLAMP, VEL_CLAMP]` for every body; a non-static
/// body then recomputes its angular velocity as `torque / inertia`,
/// damps its velocity, and accumulates `force / mass`.
pub open spec fn spec_body_velocity(b: Body) -> Body {
    let clamped = b.spec_with_vel(
        V2 {
            x: spec_clamp(b.spec_vel().x as int, -(VEL_CLAMP as int), VEL_CLAMP as int) as i64,
            y: spec_clamp(b.spec_vel().y as int, -(VEL_CLAMP as int), VEL_CLAMP as int) as i64,
        },
    );
    if b.spec_is_static() {
        clamped
    } else {
        let with_aa = clamped.spec_with_ang_vel(spec_fx_div(b.spec_torque(), b.spec_inertia()));
        let damped = spec_v2_scale(with_aa.spec_vel(), DAMPING as int);
        let dv = spec_v2_div(with_aa.spec_force(), with_aa.spec_mass());
        with_aa.spec_with_vel(spec_v2_add(damped, dv))
    }
}

/// A body after the movement phase: a non-static body advances its
/// orientation by its angular velocity and its position by its
/// velocity.
pub open spec fn spec_body_movement(b: Body) -> Body {
    if b.spec_is_static() {
        b
    } else {
        let turned = b.spec_with_angle(sat64(b.spec_angle() + b.spec_ang_vel()));
        turned.spec_with_pos(spec_v2_add(turned.spec_pos(), turned.spec_vel()))
    }
}

/// A body clamped against the fixed world bounds. The y axis is tested
/// first and, when it is violated, the x axis is skipped for this step:
/// the force on the violated axis is scaled by [`FORCE_RESTITUTION`],
/// the velocity on it flips sign, and the position snaps just inside
/// the bound, toward the side the body was on.
pub open spec fn spec_body_bounds(b: Body) -> Body {
    let py = sat64(b.spec_pos().y + b.spec_vel().y);
    let px = sat64(b.spec_pos().x + b.spec_vel().x);
    if py < -(BOUND_LIMIT as int) || py > BOUND_LIMIT as int {
        let f = b.spec_force();
        let v = b.spec_vel();
        let p = b.spec_pos();
        b.spec_with_force(
            V2 { x: f.x, y: spec_fx_mul(f.y as int, FORCE_RESTITUTION as int) as i64 },
        ).spec_with_vel(V2 { x: v.x, y: spec_fx_mul(v.y as int, VEL_FLIP as int) as i64 }).spec_with_pos(
            V2 {
                x: p.x,
                y: if p.y < 0 {
                    (-BOUND_SNAP) as i64
                } else {
                    BOUND_SNAP
                },
            },
        )
    } else if px < -(BOUND_LIMIT as int) || px > BOUND_LIMIT as int {
        let f = b.spec_force();
        let v = b.spec_vel();
        let p = b.spec_pos();
        b.spec_with_force(
            V2 { x: spec_fx_mul(f.x as int, FORCE_RESTITUTION as int) as i64, y: f.y },
        ).spec_with_vel(V2 { x: spec_fx_mul(v.x as int, VEL_FLIP as int) as i64, y: v.y }).spec_with_pos(
            V2 {
                x: if p.x < 0 {
                    (-BOUND_SNAP) as i64
                } else {
                    BOUND_SNAP
                },
                y: p.y,
            },
        )
    } else {
        b
    }
}

/// A slot after the force-clearing phase.
pub open spec fn spec_slot_zero(s: Option<Body>) -> Option<Body> {
    match s {
        Some(b) => Some(spec_body_zero_forces(b)),
        None => None,
    }
}

/// A slot after the gravity phase.
pub open spec fn spec_slot_gravity(s: Option<Body>, gravity: V2) -> Option<Body> {
    match s {
        Some(b) => Some(spec_body_gravity(b, gravity)),
        None => None,
    }
}

/// A slot after the velocity phase.
pub open spec fn spec_slot_velocity(s: Option<Body>) -> Option<Body> {
    match s {
        Some(b) => Some(spec_body_velocity(b)),
        None => None,
    }
}

/// A slot after the movement phase.
pub open spec fn spec_slot_movement(s: Option<Body>) -> Option<Body> {
    match s {
        Some(b) => Some(spec_body_movement(b)),
        None => None,
    }
}

/// A slot after the world-bound clamp.
pub open spec fn spec_slot_bounds(s: Option<Body>) -> Option<Body> {
    match s {
        Some(b) => Some(spec_body_bounds(b)),
        None => None,
    }
}

/// The staged record a body starts the pairwise pass with: its current
/// position, no velocity correction, its current torque.
pub open spec fn spec_temp_init(b: Body) -> TempPhyObjData {
    TempPhyObjData { pos: b.spec_pos(), vel: None, torque: b.spec_torque() as i64 }
}

/// The post-collision velocities of two bodies, by the 1D central-impact
/// formula applied to each full velocity vector:
/// `v1' = (m1*v1 + m2*(2*v2 - v1)) / (m1 + m2)`, and symmetrically.
pub open spec fn spec_vel_after_col(b1: Body, b2: Body) -> (V2, V2) {
    let v1 = b1.spec_vel();
    let m1 = b1.spec_mass();
    let v2 = b2.spec_vel();
    let m2 = b2.spec_mass();
    (
        spec_v2_div(
            spec_v2_add(
                spec_v2_scale(v1, m1),
                spec_v2_scale(spec_v2_sub(spec_v2_scale(v2, 2_000_000), v1), m2),
            ),
            sat64(m2 + m1),
        ),
        spec_v2_div(
            spec_v2_add(
                spec_v2_scale(v2, m2),
                spec_v2_scale(spec_v2_sub(spec_v2_scale(v1, 2_000_000), v2), m1),
            ),
            sat64(m1 + m2),
        ),
    )
}

/// The correction pair the matching relation produces for two bodies,
/// when their shapes' relation reports a collision; the convex–circle
/// order swaps the records so each correction lands on its own body.
pub open spec fn spec_pair_resets(bi: Body, bj: Body) -> Option<(TempPhyObjData, TempPhyObjData)> {
    match (bi, bj) {
        (Body::Circle(c1), Body::Circle(c2)) => if
        crate::col_relations::spec_circle_circle_collide(c1, c2) {
            Some(crate::col_relations::spec_circle_circle_reset(c1, c2))
        } else {
            None
        },
        (Body::Circle(c1), Body::Convex(v2)) => if
        crate::col_relations::spec_circle_convex_collide(c1, v2) {
            Some(crate::col_relations::spec_circle_convex_reset(c1, v2))
        } else {
            None
        },
        (Body::Convex(v1), Body::Circle(c2)) => if
        crate::col_relations::spec_circle_convex_collide(c2, v1) {
            let r = crate::col_relations::spec_circle_convex_reset(c2, v1);
            Some((r.1, r.0))
        } else {
            None
        },
        (Body::Convex(v1), Body::Convex(v2)) => if crate::col_relations::spec_gjk_result(v1, v2) {
            Some(crate::col_relations::spec_convex_convex_reset(v1, v2))
        } else {
            None
        },
    }
}

/// How one detected collision updates the bodies and the staging table:
/// both staged positions are overwritten with the rollback positions;
/// each non-static body of the pair accumulates its post-collision
/// velocity into its staged record, takes the staged torque, and has its
/// orientation rolled back by its angular velocity at once.
pub open spec fn spec_reset_pos(
    arr: Seq<Body>,
    temp: Seq<TempPhyObjData>,
    i: int,
    j: int,
    t1: TempPhyObjData,
    t2: TempPhyObjData,
) -> (Seq<Body>, Seq<TempPhyObjData>) {
    let temp_a = temp.update(i, TempPhyObjData { pos: t1.pos, ..temp[i] });
    let temp_b = temp_a.update(j, TempPhyObjData { pos: t2.pos, ..temp_a[j] });
    let pv = spec_vel_after_col(arr[i], arr[j]);
    let arr1 = if !arr[i].spec_is_static() {
        arr.update(i, arr[i].spec_with_angle(sat64(arr[i].spec_angle() - arr[i].spec_ang_vel())))
    } else {
        arr
    };
    let temp_c = if !arr[i].spec_is_static() {
        temp_b.update(
            i,
            TempPhyObjData {
                vel: Some(
                    match temp_b[i].vel {
                        Some(v) => spec_v2_add(v, pv.0),
                        None => pv.0,
                    },
                ),
                torque: t1.torque,
                ..temp_b[i]
            },
        )
    } else {
        temp_b
    };
    let arr2 = if !arr[j].spec_is_static() {
        arr1.update(
            j,
            arr1[j].spec_with_angle(sat64(arr1[j].spec_angle() - arr1[j].spec_ang_vel())),
        )
    } else {
        arr1
    };
    let temp_d = if !arr[j].spec_is_static() {
        temp_c.update(
            j,
            TempPhyObjData {
                vel: Some(
                    match temp_c[j].vel {
                        Some(v) => spec_v2_add(v, pv.1),
                        None => pv.1,
                    },
                ),
                torque: t2.torque,
                ..temp_c[j]
            },
        )
    } else {
        temp_c
    };
    (arr2, temp_d)
}

/// One ordered pair examined: nothing changes unless the matching
/// relation reports a collision.
pub open spec fn spec_pair_step(arr: Seq<Body>, temp: Seq<TempPhyObjData>, i: int, j: int) -> (
    Seq<Body>,
    Seq<TempPhyObjData>,
) {
    match spec_pair_resets(arr[i], arr[j]) {
        None => (arr, temp),
        Some(ts) => spec_reset_pos(arr, temp, i, j, ts.0, ts.1),
    }
}

/// The whole pairwise scan, from pair `(i, j)` on: `j` runs to the end,
/// then `i` advances, over every unordered pair exactly once.
pub open spec fn spec_pairs_from(
    arr: Seq<Body>,
    temp: Seq<TempPhyObjData>,
    i: int,
    j: int,
    n: int,
) -> (Seq<Body>, Seq<TempPhyObjData>)
    decreases n - i, n - j,
{
    if i >= n {
        (arr, temp)
    } else if j >= n {
        spec_pairs_from(arr, temp, i + 1, i + 2, n)
    } else {
        let st = spec_pair_step(arr, temp, i, j);
        spec_pairs_from(st.0, st.1, i, j + 1, n)
    }
}

/// A body with its staged correction committed: a static body stays as
/// it is; any other takes the staged position, the staged velocity if
/// one was accumulated, and the staged torque.
pub open spec fn spec_commit_body(b: Body, t: TempPhyObjData) -> Body {
    if b.spec_is_static() {
        b
    } else {
        let moved = b.spec_with_pos(t.pos);
        let pushed = match t.vel {
            Some(v) => moved.spec_with_vel(v),
            None => moved,
        };
        pushed.spec_with_torque(t.torque as int)
    }
}

/// Every staged correction committed, one body at a time.
pub open spec fn spec_commit(arr: Seq<Body>, temp: Seq<TempPhyObjData>) -> Seq<Body> {
    Seq::new(arr.len(), |k: int| spec_commit_body(arr[k], temp[k]))
}

/// The collision pass over the live bodies, in slot order: every body
/// is clamped against the world bounds, every unordered pair runs
/// through its relation with corrections staged, and the staged
/// corrections are committed once.
pub open spec fn spec_collision_phase(bodies: Seq<Body>) -> Seq<Body> {
    let bounded = Seq::new(bodies.len(), |k: int| spec_body_bounds(bodies[k]));
    let temp0 = Seq::new(bounded.len(), |k: int| spec_temp_init(bounded[k]));
    let pt = spec_pairs_from(bounded, temp0, 0, 1, bounded.len() as int);
    spec_commit(pt.0, pt.1)
}

/// One body carried through the four integration phases in order:
/// forces cleared, gravity applied, velocity and movement integrated.
pub open spec fn spec_integrate_body(b: Body, gravity: V2) -> Body {
    spec_body_movement(spec_body_velocity(spec_body_gravity(spec_body_zero_forces(b), gravity)))
}

/// The whole step, on the live bodies in slot order: forces cleared,
/// gravity applied, velocity and movement integrated, collisions
/// resolved.
pub open spec fn spec_step_bodies(bodies: Seq<Body>, gravity: V2) -> Seq<Body> {
    spec_collision_phase(Seq::new(bodies.len(), |k: int| spec_integrate_body(bodies[k], gravity)))
}

/// The bodies named by the (occupied) slot indices `occ`, in order.
pub open spec fn spec_gather(slots: Seq<Option<Body>>, occ: Seq<int>) -> Seq<Body> {
    Seq::new(occ.len(), |k: int| slots[occ[k]].unwrap())
}

/// The post-collision velocities of two bodies (see
/// [`spec_vel_after_col`]).
pub fn calc_vel_after_col(obj1: &Body, obj2: &Body) -> (r: (V2, V2))
    ensures
        r == spec_vel_after_col(*obj1, *obj2),
{
    let v1 = obj1.get_vel();
    let m1 = obj1.get_mass();
    let v2 = obj2.get_vel();
    let m2 = obj2.get_mass();
    let pv1 = v1.scaled(m1).plus(v2.scaled(2_000_000).minus(v1).scaled(m2)).divided(
        fx_add(m2, m1),
    );
    let pv2 = v2.scaled(m2).plus(v1.scaled(2_000_000).minus(v2).scaled(m1)).divided(
        fx_add(m1, m2),
    );
    (pv1, pv2)
}

/// The world: the arena of dynamic bodies (static bodies share it,
/// distinguished by their flag), a second arena kept for statically
/// registered obstacles, the global gravity direction, and the fixed
/// square simulation bounds.
pub struct World {
    pub global_gravity_dir: V2,
    pub obj_count: usize,
    pub width_bound: (i64, i64),
    pub height_bound: (i64, i64),
    pub physics_objects: GenVec<Body>,
    pub static_objects: GenVec<Body>,
}

impl World {
    /// Both arenas are well-formed.
    pub open spec fn wf(&self) -> bool {
        &&& self.physics_objects.wf()
        &&& self.static_objects.wf()
    }

    /// An empty world: no bodies, gravity pointing down at a hundredth
    /// of a unit, bounds at one unit in each direction.
    pub fn new() -> (w: World)
        ensures
            w.wf(),
            w.global_gravity_dir == (V2 { x: 0i64, y: -10_000i64 }),
            w.obj_count == 0,
            w.width_bound == (((-1_000_000) as i64, 1_000_000i64)),
            w.height_bound == (((-1_000_000) as i64, 1_000_000i64)),
            w.physics_objects@.slots == Seq::<Option<Body>>::empty(),
            w.static_objects@.slots == Seq::<Option<Body>>::empty(),
    {
        World {
            global_gravity_dir: V2 { x: 0, y: -10_000 },
            obj_count: 0,
            width_bound: (-SCALE, SCALE),
            height_bound: (-SCALE, SCALE),
            physics_objects: GenVec::new(),
            static_objects: GenVec::new(),
        }
    }

    /// Steers the global gravity direction.
    pub fn set_global_gravity_direction(&mut self, dir: V2)
        ensures
            *final(self) == (World { global_gravity_dir: dir, ..*old(self) }),
    {
        self.global_gravity_dir = dir;
    }

    /// Adds a body under the next sequential id and returns that id.
    pub fn add_phy_obj(&mut self, add: Body) -> (id: usize)
        requires
            old(self).wf(),
            old(self).physics_objects.slot_count() < usize::MAX,
            old(self).obj_count < usize::MAX,
        ensures
            final(self).wf(),
            id == old(self).obj_count,
            final(self).obj_count == old(self).obj_count + 1,
            final(self).physics_objects@ == crate::gen_vec::spec_insert(
                old(self).physics_objects@,
                add.spec_with_id(old(self).obj_count as int),
            ).0,
            final(self).physics_objects.live_count() == old(self).physics_objects.live_count()
                + 1,
            final(self).static_objects == old(self).static_objects,
            final(self).global_gravity_dir == old(self).global_gravity_dir,
    {
        let mut add = add;
        add.set_id(self.obj_count);
        self.physics_objects.insert(add);
        self.obj_count = self.obj_count + 1;
        self.obj_count - 1
    }

    /// Seeds the demonstration scene with one falling circle.
    pub fn add_circles(&mut self)
        requires
            old(self).wf(),
            old(self).physics_objects.slot_count() < usize::MAX,
            old(self).obj_count < usize::MAX,
        ensures
            final(self).wf(),
            final(self).obj_count == old(self).obj_count + 1,
            final(self).physics_objects.live_count() == old(self).physics_objects.live_count()
                + 1,
            exists|b: Body|
                {
                    &&& final(self).physics_objects@ == crate::gen_vec::spec_insert(
                        old(self).physics_objects@,
                        b,
                    ).0
                    &&& (b matches Body::Circle(c) && {
                        &&& c.id == old(self).obj_count
                        &&& c.pos == (V2 { x: (-800_000) as i64, y: 800_000i64 })
                        &&& c.r == 70_000
                        &&& c.m == 6_000_000
                        &&& c.vel == (V2 { x: 0, y: 0 })
                        &&& c.force == (V2 { x: 0, y: 0 })
                        &&& c.torque == 0
                        &&& c.angle == 0
                        &&& c.ang_vel == 0
                        &&& c.nodes@ == Seq::<usize>::empty()
                    })
                },
    {
        let add = crate::circle_body::Circle::new(0, -800_000, 800_000, 70_000, 6_000_000);
        self.add_phy_obj(Body::Circle(add));
    }

    /// Clears every body's force accumulator.
    fn set_forces_to_zero(&mut self)
        requires
            old(self).wf(),
        ensures
            final(self).wf(),
            final(self).physics_objects@.slots.len() == old(self).physics_objects@.slots.len(),
            forall|k: int|
                0 <= k < old(self).physics_objects@.slots.len() ==> #[trigger] final(self).physics_objects@.slots[k] == spec_slot_zero(old(self).physics_objects@.slots[k]),
            final(self).physics_objects@.gens == old(self).physics_objects@.gens,
            final(self).physics_objects@.ptrs == old(self).physics_objects@.ptrs,
            final(self).physics_objects@.free == old(self).physics_objects@.free,
            final(self).physics_objects@.head == old(self).physics_objects@.head,
            final(self).static_objects == old(self).static_objects,
            final(self).global_gravity_dir == old(self).global_gravity_dir,
            final(self).obj_count == old(self).obj_count,
            final(self).width_bound == old(self).width_bound,
            final(self).height_bound == old(self).height_bound,
    {
        let ghost m0 = self.physics_objects@;
        let n = self.physics_objects.len();
        let mut i: usize = 0;
        while i < n
            invariant
                self.wf(),
                n as int == m0.slots.len(),
                i <= n,
                self.physics_objects@.slots.len() == m0.slots.len(),
                forall|k: int|
                    0 <= k < i as int ==> #[trigger] self.physics_objects@.slots[k]
                        == spec_slot_zero(m0.slots[k]),
                forall|k: int|
                    i as int <= k < m0.slots.len() ==> #[trigger] self.physics_objects@.slots[k]
                        == m0.slots[k],
                self.physics_objects@.gens == m0.gens,
                self.physics_objects@.ptrs == m0.ptrs,
                self.physics_objects@.free == m0.free,
                self.physics_objects@.head == m0.head,
                m0 == old(self).physics_objects@,
                self.static_objects == old(self).static_objects,
                self.global_gravity_dir == old(self).global_gravity_dir,
                self.obj_count == old(self).obj_count,
                self.width_bound == old(self).width_bound,
                self.height_bound == old(self).height_bound,
            decreases n - i,
        {
            match self.physics_objects.get_at(i) {
                Some(p) => {
                    let ghost ob = *p;
                    let ghost m_pre = self.physics_objects@;
                    let b = self.physics_objects.get_at_mut(i);
                    b.set_force(V2 { x: 0, y: 0 });
                    proof {
                        lemma_wf_after_value_update(m_pre, i as int, spec_body_zero_forces(ob));
                        assert(self.physics_objects@ == spec_value_update(
                            m_pre,
                            i as int,
                            spec_body_zero_forces(ob),
                        ));
                    }
                },
                None => {},
            }
            i = i + 1;
        }
    }

    /// Applies gravity to every non-static body: its force accumulates
    /// `mass * gravity * GRAVITY_FACTOR`.
    fn simulate_force(&mut self)
        requires
            old(self).wf(),
        ensures
            final(self).wf(),
            final(self).physics_objects@.slots.len() == old(self).physics_objects@.slots.len(),
            forall|k: int|
                0 <= k < old(self).physics_objects@.slots.len() ==> #[trigger] final(self).physics_objects@.slots[k] == spec_slot_gravity(
                    old(self).physics_objects@.slots[k],
                    old(self).global_gravity_dir,
                ),
            final(self).physics_objects@.gens == old(self).physics_objects@.gens,
            final(self).physics_objects@.ptrs == old(self).physics_objects@.ptrs,
            final(self).physics_objects@.free == old(self).physics_objects@.free,
            final(self).physics_objects@.head == old(self).physics_objects@.head,
            final(self).static_objects == old(self).static_objects,
            final(self).global_gravity_dir == old(self).global_gravity_dir,
            final(self).obj_count == old(self).obj_count,
            final(self).width_bound == old(self).width_bound,
            final(self).height_bound == old(self).height_bound,
    {
        let ghost m0 = self.physics_objects@;
        let n = self.physics_objects.len();
        let mut i: usize = 0;
        while i < n
            invariant
                self.wf(),
                n as int == m0.slots.len(),
                i <= n,
                self.physics_objects@.slots.len() == m0.slots.len(),
                forall|k: int|
                    0 <= k < i as int ==> #[trigger] self.physics_objects@.slots[k]
                        == spec_slot_gravity(m0.slots[k], old(self).global_gravity_dir),
                forall|k: int|
                    i as int <= k < m0.slots.len() ==> #[trigger] self.physics_objects@.slots[k]
                        == m0.slots[k],
                self.physics_objects@.gens == m0.gens,
                self.physics_objects@.ptrs == m0.ptrs,
                self.physics_objects@.free == m0.free,
                self.physics_objects@.head == m0.head,
                m0 == old(self).physics_objects@,
                self.static_objects == old(self).static_objects,
                self.global_gravity_dir == old(self).global_gravity_dir,
                self.obj_count == old(self).obj_count,
                self.width_bound == old(self).width_bound,
                self.height_bound == old(self).height_bound,
            decreases n - i,
        {
            match self.physics_objects.get_at(i) {
                Some(p) => {
                    if !p.is_static() {
                        let ghost ob = *p;
                        let mass = p.get_mass();
                        let g_force = self.global_gravity_dir.scaled(mass).scaled(GRAVITY_FACTOR);
                        let ghost m_pre = self.physics_objects@;
                        let b = self.physics_objects.get_at_mut(i);
                        let f = b.get_force();
                        b.set_force(f.plus(g_force));
                        proof {
                            lemma_wf_after_value_update(
                                m_pre,
                                i as int,
                                spec_body_gravity(ob, self.global_gravity_dir),
                            );
                            assert(self.physics_objects@ == spec_value_update(
                                m_pre,
                                i as int,
                                spec_body_gravity(ob, self.global_gravity_dir),
                            ));
                        }
                    }
                },
                None => {},
            }
            i = i + 1;
        }
    }

    /// Integrates every body's velocity: the components are clamped for
    /// every body; a non-static body then recomputes its angular
    /// velocity from torque and inertia, damps its velocity, and
    /// accumulates `force / mass`.
    fn simulate_velocity(&mut self)
        requires
            old(self).wf(),
        ensures
            final(self).wf(),
            final(self).physics_objects@.slots.len() == old(self).physics_objects@.slots.len(),
            forall|k: int|
                0 <= k < old(self).physics_objects@.slots.len() ==> #[trigger] final(self).physics_objects@.slots[k] == spec_slot_velocity(
                    old(self).physics_objects@.slots[k],
                ),
            final(self).physics_objects@.gens == old(self).physics_objects@.gens,
            final(self).physics_objects@.ptrs == old(self).physics_objects@.ptrs,
            final(self).physics_objects@.free == old(self).physics_objects@.free,
            final(self).physics_objects@.head == old(self).physics_objects@.head,
            final(self).static_objects == old(self).static_objects,
            final(self).global_gravity_dir == old(self).global_gravity_dir,
            final(self).obj_count == old(self).obj_count,
            final(self).width_bound == old(self).width_bound,
            final(self).height_bound == old(self).height_bound,
    {
        let ghost m0 = self.physics_objects@;
        let n = self.physics_objects.len();
        let mut i: usize = 0;
        while i < n
            invariant
                self.wf(),
                n as int == m0.slots.len(),
                i <= n,
                self.physics_objects@.slots.len() == m0.slots.len(),
                forall|k: int|
                    0 <= k < i as int ==> #[trigger] self.physics_objects@.slots[k]
                        == spec_slot_velocity(m0.slots[k]),
                forall|k: int|
                    i as int <= k < m0.slots.len() ==> #[trigger] self.physics_objects@.slots[k]
                        == m0.slots[k],
                self.physics_objects@.gens == m0.gens,
                self.physics_objects@.ptrs == m0.ptrs,
                self.physics_objects@.free == m0.free,
                self.physics_objects@.head == m0.head,
                m0 == old(self).physics_objects@,
                self.static_objects == old(self).static_objects,
                self.global_gravity_dir == old(self).global_gravity_dir,
                self.obj_count == old(self).obj_count,
                self.width_bound == old(self).width_bound,
                self.height_bound == old(self).height_bound,
            decreases n - i,
        {
            match self.physics_objects.get_at(i) {
                Some(p) => {
                    let ghost ob = *p;
                    let ghost m_pre = self.physics_objects@;
                    let b = self.physics_objects.get_at_mut(i);
                    let v = b.get_vel();
                    b.set_vel(
                        V2 {
                            x: fx_clamp(v.x, -VEL_CLAMP, VEL_CLAMP),
                            y: fx_clamp(v.y, -VEL_CLAMP, VEL_CLAMP),
                        },
                    );
                    if !b.is_static() {
                        let aa = fx_div(b.get_torque(), b.get_inertia());
                        b.set_angular_accel(aa);
                        let damped = b.get_vel().scaled(DAMPING);
                        let dv = b.get_force().divided(b.get_mass());
                        b.set_vel(damped.plus(dv));
                    }
                    proof {
                        lemma_wf_after_value_update(m_pre, i as int, spec_body_velocity(ob));
                        assert(self.physics_objects@ == spec_value_update(
                            m_pre,
                            i as int,
                            spec_body_velocity(ob),
                        ));
                    }
                },
                None => {},
            }
            i = i + 1;
        }
    }

    /// Integrates every non-static body's movement: the orientation
    /// advances by the angular velocity and the position by the
    /// velocity.
    fn simulate_movement(&mut self)
        requires
            old(self).wf(),
        ensures
            final(self).wf(),
            final(self).physics_objects@.slots.len() == old(self).physics_objects@.slots.len(),
            forall|k: int|
                0 <= k < old(self).physics_objects@.slots.len() ==> #[trigger] final(self).physics_objects@.slots[k] == spec_slot_movement(
                    old(self).physics_objects@.slots[k],
                ),
            final(self).physics_objects@.gens == old(self).physics_objects@.gens,
            final(self).physics_objects@.ptrs == old(self).physics_objects@.ptrs,
            final(self).physics_objects@.free == old(self).physics_objects@.free,
            final(self).physics_objects@.head == old(self).physics_objects@.head,
            final(self).static_objects == old(self).static_objects,
            final(self).global_gravity_dir == old(self).global_gravity_dir,
            final(self).obj_count == old(self).obj_count,
            final(self).width_bound == old(self).width_bound,
            final(self).height_bound == old(self).height_bound,
    {
        let ghost m0 = self.physics_objects@;
        let n = self.physics_objects.len();
        let mut i: usize = 0;
        while i < n
            invariant
                self.wf(),
                n as int == m0.slots.len(),
                i <= n,
                self.physics_objects@.slots.len() == m0.slots.len(),
                forall|k: int|
                    0 <= k < i as int ==> #[trigger] self.physics_objects@.slots[k]
                        == spec_slot_movement(m0.slots[k]),
                forall|k: int|
                    i as int <= k < m0.slots.len() ==> #[trigger] self.physics_objects@.slots[k]
                        == m0.slots[k],
                self.physics_objects@.gens == m0.gens,
                self.physics_objects@.ptrs == m0.ptrs,
                self.physics_objects@.free == m0.free,
                self.physics_objects@.head == m0.head,
                m0 == old(self).physics_objects@,
                self.static_objects == old(self).static_objects,
                self.global_gravity_dir == old(self).global_gravity_dir,
                self.obj_count == old(self).obj_count,
                self.width_bound == old(self).width_bound,
                self.height_bound == old(self).height_bound,
            decreases n - i,
        {
            match self.physics_objects.get_at(i) {
                Some(p) => {
                    if !p.is_static() {
                        let ghost ob = *p;
                        let ghost m_pre = self.physics_objects@;
                        let b = self.physics_objects.get_at_mut(i);
                        let turned = fx_add(b.get_angle(), b.get_angular_accel());
                        b.set_angle(turned);
                        let moved = b.get_pos().plus(b.get_vel());
                        b.set_pos(moved);
                        proof {
                            lemma_wf_after_value_update(m_pre, i as int, spec_body_movement(ob));
                            assert(self.physics_objects@ == spec_value_update(
                                m_pre,
                                i as int,
                                spec_body_movement(ob),
                            ));
                        }
                    }
                },
                None => {},
            }
            i = i + 1;
        }
    }

    /// The collision pass: clamps every body against the world bounds,
    /// runs every unordered pair of live bodies through the relation
    /// their shape tags select (staging corrections so that resolving
    /// one pair cannot corrupt the tests of later pairs), and commits
    /// all staged corrections once.
    fn collision_detection(&mut self)
        requires
            old(self).wf(),
        ensures
            final(self).wf(),
            final(self).physics_objects@.slots.len() == old(self).physics_objects@.slots.len(),
            forall|i: int|
                0 <= i < old(self).physics_objects@.slots.len() ==> (#[trigger] final(self).physics_objects@.slots[i] is Some <==> old(self).physics_objects@.slots[i] is Some),
            final(self).physics_objects@.gens == old(self).physics_objects@.gens,
            final(self).physics_objects@.ptrs == old(self).physics_objects@.ptrs,
            final(self).physics_objects@.free == old(self).physics_objects@.free,
            final(self).physics_objects@.head == old(self).physics_objects@.head,
            final(self).static_objects == old(self).static_objects,
            final(self).global_gravity_dir == old(self).global_gravity_dir,
            final(self).obj_count == old(self).obj_count,
            final(self).width_bound == old(self).width_bound,
            final(self).height_bound == old(self).height_bound,
            spec_gather(
                final(self).physics_objects@.slots,
                crate::gen_vec::occ_indices(old(self).physics_objects@.slots),
            ) == spec_collision_phase(
                spec_gather(
                    old(self).physics_objects@.slots,
                    crate::gen_vec::occ_indices(old(self).physics_objects@.slots),
                ),
            ),
    {
        let ghost m0 = self.physics_objects@;
        let n = self.physics_objects.len();

        // World-bound clamp, one body at a time; the y axis shadows the
        // x axis within a step.
        let mut i: usize = 0;
        while i < n
            invariant
                self.wf(),
                n as int == m0.slots.len(),
                i <= n,
                self.physics_objects@.slots.len() == m0.slots.len(),
                forall|k: int|
                    0 <= k < i as int ==> #[trigger] self.physics_objects@.slots[k]
                        == spec_slot_bounds(m0.slots[k]),
                forall|k: int|
                    i as int <= k < m0.slots.len() ==> #[trigger] self.physics_objects@.slots[k]
                        == m0.slots[k],
                self.physics_objects@.gens == m0.gens,
                self.physics_objects@.ptrs == m0.ptrs,
                self.physics_objects@.free == m0.free,
                self.physics_objects@.head == m0.head,
                m0 == old(self).physics_objects@,
                self.static_objects == old(self).static_objects,
                self.global_gravity_dir == old(self).global_gravity_dir,
                self.obj_count == old(self).obj_count,
                self.width_bound == old(self).width_bound,
                self.height_bound == old(self).height_bound,
            decreases n - i,
        {
            match self.physics_objects.get_at(i) {
                Some(p) => {
                    let ghost ob = *p;
                    let pos = p.get_pos();
                    let vel = p.get_vel();
                    let force = p.get_force();
                    let py = fx_add(pos.y, vel.y);
                    let px = fx_add(pos.x, vel.x);
                    if py < -BOUND_LIMIT || BOUND_LIMIT < py {
                        let ghost m_pre = self.physics_objects@;
                        let b = self.physics_objects.get_at_mut(i);
                        b.set_force(V2 { x: force.x, y: fx_mul(force.y, FORCE_RESTITUTION) });
                        b.set_vel(V2 { x: vel.x, y: fx_mul(vel.y, VEL_FLIP) });
                        b.set_pos(
                            V2 {
                                x: pos.x,
                                y: if pos.y < 0 {
                                    -BOUND_SNAP
                                } else {
                                    BOUND_SNAP
                                },
                            },
                        );
                        proof {
                            lemma_wf_after_value_update(m_pre, i as int, spec_body_bounds(ob));
                            assert(self.physics_objects@ == spec_value_update(
                                m_pre,
                                i as int,
                                spec_body_bounds(ob),
                            ));
                        }
                    } else if px < -BOUND_LIMIT || BOUND_LIMIT < px {
                        let ghost m_pre = self.physics_objects@;
                        let b = self.physics_objects.get_at_mut(i);
                        b.set_force(V2 { x: fx_mul(force.x, FORCE_RESTITUTION), y: force.y });
                        b.set_vel(V2 { x: fx_mul(vel.x, VEL_FLIP), y: vel.y });
                        b.set_pos(
                            V2 {
                                x: if pos.x < 0 {
                                    -BOUND_SNAP
                                } else {
                                    BOUND_SNAP
                                },
                                y: pos.y,
                            },
                        );
                        proof {
                            lemma_wf_after_value_update(m_pre, i as int, spec_body_bounds(ob));
                            assert(self.physics_objects@ == spec_value_update(
                                m_pre,
                                i as int,
                                spec_body_bounds(ob),
                            ));
                        }
                    }
                },
                None => {},
            }
            i = i + 1;
        }

        let ghost slots1 = self.physics_objects@.slots;
        let ghost occ_g = crate::gen_vec::occ_indices(slots1);
        proof {
            crate::gen_vec::lemma_occ_indices_props::<Body>(slots1);
            crate::gen_vec::lemma_occ_indices_same_shape(
                m0.slots,
                slots1,
                m0.slots.len() as int,
            );
        }

        // Stage the pending corrections: one record per live body, in
        // slot order.
        let mut occ: Vec<usize> = Vec::new();
        let mut temp: Vec<TempPhyObjData> = Vec::new();
        let mut i: usize = 0;
        while i < n
            invariant
                n as int == slots1.len(),
                i <= n,
                self.physics_objects@.slots == slots1,
                occ@.len() == crate::gen_vec::occ_indices_prefix(slots1, i as int).len(),
                temp@.len() == occ@.len(),
                forall|k: int|
                    0 <= k < occ@.len() ==> #[trigger] occ@[k] as int
                        == crate::gen_vec::occ_indices_prefix(slots1, i as int)[k],
                forall|k: int|
                    0 <= k < temp@.len() ==> #[trigger] temp@[k] == spec_temp_init(
                        slots1[crate::gen_vec::occ_indices_prefix(slots1, i as int)[k]].unwrap(),
                    ),
            decreases n - i,
        {
            proof {
                crate::gen_vec::lemma_occ_indices_prefix_props::<Body>(slots1, i as int + 1);
                crate::gen_vec::lemma_occ_indices_prefix_props::<Body>(slots1, i as int);
            }
            match self.physics_objects.get_at(i) {
                Some(p) => {
                    occ.push(i);
                    temp.push(
                        TempPhyObjData { pos: p.get_pos(), vel: None, torque: p.get_torque() },
                    );
                },
                None => {},
            }
            i = i + 1;
        }

        let cnt = occ.len();
        let ghost arr0 = spec_gather(slots1, occ_g);
        let ghost temp0 = Seq::new(arr0.len(), |k: int| spec_temp_init(arr0[k]));
        proof {
            assert(temp@ =~= temp0);
        }

        // The pairwise scan over every unordered pair of live bodies.
        let mut k1: usize = 0;
        while k1 < cnt
            invariant
                self.wf(),
                k1 <= cnt,
                cnt == occ@.len(),
                cnt == occ_g.len(),
                cnt == temp@.len(),
                self.physics_objects@.slots.len() == slots1.len(),
                forall|x: int|
                    0 <= x < slots1.len() ==> (#[trigger] self.physics_objects@.slots[x] is Some
                        <==> slots1[x] is Some),
                self.physics_objects@.gens == m0.gens,
                self.physics_objects@.ptrs == m0.ptrs,
                self.physics_objects@.free == m0.free,
                self.physics_objects@.head == m0.head,
                occ_g == crate::gen_vec::occ_indices(slots1),
                forall|k: int| 0 <= k < cnt ==> 0 <= #[trigger] occ_g[k] < slots1.len(),
                forall|k: int| 0 <= k < cnt ==> slots1[#[trigger] occ_g[k]] is Some,
                forall|k: int| 0 <= k < cnt ==> #[trigger] occ@[k] as int == occ_g[k],
                forall|a: int, b: int| 0 <= a < b < cnt ==> #[trigger] occ_g[a] < #[trigger] occ_g[b],
                spec_pairs_from(arr0, temp0, 0, 1, cnt as int) == spec_pairs_from(
                    spec_gather(self.physics_objects@.slots, occ_g),
                    temp@,
                    k1 as int,
                    k1 as int + 1,
                    cnt as int,
                ),
                arr0 == spec_gather(slots1, occ_g),
                arr0.len() == cnt,
                self.static_objects == old(self).static_objects,
                self.global_gravity_dir == old(self).global_gravity_dir,
                self.obj_count == old(self).obj_count,
                self.width_bound == old(self).width_bound,
                self.height_bound == old(self).height_bound,
            decreases cnt - k1,
        {
            let mut k2: usize = k1 + 1;
            while k2 < cnt
                invariant
                    self.wf(),
                    k1 < cnt,
                    k1 < k2 <= cnt,
                    cnt == occ@.len(),
                    cnt == occ_g.len(),
                    cnt == temp@.len(),
                    self.physics_objects@.slots.len() == slots1.len(),
                    forall|x: int|
                        0 <= x < slots1.len() ==> (#[trigger] self.physics_objects@.slots[x] is Some
                            <==> slots1[x] is Some),
                    self.physics_objects@.gens == m0.gens,
                    self.physics_objects@.ptrs == m0.ptrs,
                    self.physics_objects@.free == m0.free,
                    self.physics_objects@.head == m0.head,
                    occ_g == crate::gen_vec::occ_indices(slots1),
                    forall|k: int| 0 <= k < cnt ==> 0 <= #[trigger] occ_g[k] < slots1.len(),
                    forall|k: int| 0 <= k < cnt ==> slots1[#[trigger] occ_g[k]] is Some,
                    forall|k: int| 0 <= k < cnt ==> #[trigger] occ@[k] as int == occ_g[k],
                    forall|a: int, b: int|
                        0 <= a < b < cnt ==> #[trigger] occ_g[a] < #[trigger] occ_g[b],
                    spec_pairs_from(arr0, temp0, 0, 1, cnt as int) == spec_pairs_from(
                        spec_gather(self.physics_objects@.slots, occ_g),
                        temp@,
                        k1 as int,
                        k2 as int,
                        cnt as int,
                    ),
                    arr0 == spec_gather(slots1, occ_g),
                    arr0.len() == cnt,
                    self.static_objects == old(self).static_objects,
                    self.global_gravity_dir == old(self).global_gravity_dir,
                    self.obj_count == old(self).obj_count,
                    self.width_bound == old(self).width_bound,
                    self.height_bound == old(self).height_bound,
                decreases cnt - k2,
            {
                let ghost g_pre = spec_gather(self.physics_objects@.slots, occ_g);
                let ghost t_pre = temp@;
                let i1 = occ[k1];
                let i2 = occ[k2];
                let b1 = match self.physics_objects.get_at(i1) {
                    Some(p) => p,
                    None => vstd::pervasive::unreached(),
                };
                let b2 = match self.physics_objects.get_at(i2) {
                    Some(p) => p,
                    None => vstd::pervasive::unreached(),
                };
                let ghost bi = *b1;
                let ghost bj = *b2;
                proof {
                    assert(bi == g_pre[k1 as int]);
                    assert(bj == g_pre[k2 as int]);
                }
                let reset_opt: Option<(TempPhyObjData, TempPhyObjData)> = match (b1, b2) {
                    (Body::Circle(c1), Body::Circle(c2)) => {
                        if crate::col_relations::circle_circle_check_col(c1, c2) {
                            crate::col_relations::circle_circle_pos_reset_to(c1, c2)
                        } else {
                            None
                        }
                    },
                    (Body::Circle(c1), Body::Convex(v2)) => {
                        if crate::col_relations::circle_convex_check_col(c1, v2) {
                            crate::col_relations::circle_convex_pos_reset_to(c1, v2)
                        } else {
                            None
                        }
                    },
                    (Body::Convex(v1), Body::Circle(c2)) => {
                        if crate::col_relations::circle_convex_check_col(c2, v1) {
                            match crate::col_relations::circle_convex_pos_reset_to(c2, v1) {
                                Some((t_circle, t_convex)) => Some((t_convex, t_circle)),
                                None => None,
                            }
                        } else {
                            None
                        }
                    },
                    (Body::Convex(v1), Body::Convex(v2)) => {
                        if crate::col_relations::convex_convex_collision(v1, v2) {
                            crate::col_relations::convex_convex_pos_reset_to(v1, v2)
                        } else {
                            None
                        }
                    },
                };
                proof {
                    assert(reset_opt == spec_pair_resets(bi, bj));
                }
                let pv = calc_vel_after_col(b1, b2);
                let st1 = b1.is_static();
                let st2 = b2.is_static();
                match reset_opt {
                    Some((t1, t2)) => {
                        let e1 = temp[k1];
                        temp[k1] = TempPhyObjData { pos: t1.pos, ..e1 };
                        let e2 = temp[k2];
                        temp[k2] = TempPhyObjData { pos: t2.pos, ..e2 };
                        if !st1 {
                            let e = temp[k1];
                            temp[k1] = TempPhyObjData {
                                vel: Some(
                                    match e.vel {
                                        Some(v) => v.plus(pv.0),
                                        None => pv.0,
                                    },
                                ),
                                torque: t1.torque,
                                ..e
                            };
                            let ghost m_pre = self.physics_objects@;
                            let bm = self.physics_objects.get_at_mut(i1);
                            let rolled = crate::fixed::fx_sub(
                                bm.get_angle(),
                                bm.get_angular_accel(),
                            );
                            bm.set_angle(rolled);
                            proof {
                                lemma_wf_after_value_update(
                                    m_pre,
                                    i1 as int,
                                    bi.spec_with_angle(
                                        sat64(bi.spec_angle() - bi.spec_ang_vel()),
                                    ),
                                );
                                assert(self.physics_objects@ == spec_value_update(
                                    m_pre,
                                    i1 as int,
                                    bi.spec_with_angle(
                                        sat64(bi.spec_angle() - bi.spec_ang_vel()),
                                    ),
                                ));
                            }
                        }
                        if !st2 {
                            let e = temp[k2];
                            temp[k2] = TempPhyObjData {
                                vel: Some(
                                    match e.vel {
                                        Some(v) => v.plus(pv.1),
                                        None => pv.1,
                                    },
                                ),
                                torque: t2.torque,
                                ..e
                            };
                            let ghost m_pre = self.physics_objects@;
                            let bm = self.physics_objects.get_at_mut(i2);
                            let rolled = crate::fixed::fx_sub(
                                bm.get_angle(),
                                bm.get_angular_accel(),
                            );
                            bm.set_angle(rolled);
                            proof {
                                lemma_wf_after_value_update(
                                    m_pre,
                                    i2 as int,
                                    bj.spec_with_angle(
                                        sat64(bj.spec_angle() - bj.spec_ang_vel()),
                                    ),
                                );
                                assert(self.physics_objects@ == spec_value_update(
                                    m_pre,
                                    i2 as int,
                                    bj.spec_with_angle(
                                        sat64(bj.spec_angle() - bj.spec_ang_vel()),
                                    ),
                                ));
                            }
                        }
                        proof {
                            let st = spec_reset_pos(g_pre, t_pre, k1 as int, k2 as int, t1, t2);
                            assert(spec_gather(self.physics_objects@.slots, occ_g) =~= st.0);
                            assert(temp@ =~= st.1);
                        }
                    },
                    None => {},
                }
                proof {
                    assert(spec_pair_step(g_pre, t_pre, k1 as int, k2 as int) == (
                        spec_gather(self.physics_objects@.slots, occ_g),
                        temp@,
                    ));
                }
                k2 = k2 + 1;
            }
            k1 = k1 + 1;
        }

        let ghost arr_f = spec_pairs_from(arr0, temp0, 0, 1, cnt as int).0;
        let ghost temp_f = spec_pairs_from(arr0, temp0, 0, 1, cnt as int).1;
        proof {
            assert(arr_f == spec_gather(self.physics_objects@.slots, occ_g));
            assert(temp_f == temp@);
        }

        // Commit every staged correction.
        let mut k: usize = 0;
        while k < cnt
            invariant
                self.wf(),
                k <= cnt,
                cnt == occ@.len(),
                cnt == occ_g.len(),
                cnt == temp@.len(),
                temp@ == temp_f,
                arr_f.len() == cnt,
                self.physics_objects@.slots.len() == slots1.len(),
                forall|x: int|
                    0 <= x < slots1.len() ==> (#[trigger] self.physics_objects@.slots[x] is Some
                        <==> slots1[x] is Some),
                self.physics_objects@.gens == m0.gens,
                self.physics_objects@.ptrs == m0.ptrs,
                self.physics_objects@.free == m0.free,
                self.physics_objects@.head == m0.head,
                occ_g == crate::gen_vec::occ_indices(slots1),
                forall|m: int| 0 <= m < cnt ==> 0 <= #[trigger] occ_g[m] < slots1.len(),
                forall|m: int| 0 <= m < cnt ==> slots1[#[trigger] occ_g[m]] is Some,
                forall|m: int| 0 <= m < cnt ==> #[trigger] occ@[m] as int == occ_g[m],
                forall|a: int, b: int|
                    0 <= a < b < cnt ==> #[trigger] occ_g[a] < #[trigger] occ_g[b],
                forall|m: int|
                    0 <= m < k as int ==> #[trigger] self.physics_objects@.slots[occ_g[m]] == Some(
                        spec_commit_body(arr_f[m], temp_f[m]),
                    ),
                forall|m: int|
                    k as int <= m < cnt ==> #[trigger] self.physics_objects@.slots[occ_g[m]]
                        == Some(arr_f[m]),
                self.static_objects == old(self).static_objects,
                self.global_gravity_dir == old(self).global_gravity_dir,
                self.obj_count == old(self).obj_count,
                self.width_bound == old(self).width_bound,
                self.height_bound == old(self).height_bound,
            decreases cnt - k,
        {
            let i0 = occ[k];
            let stat = match self.physics_objects.get_at(i0) {
                Some(p) => p.is_static(),
                None => vstd::pervasive::unreached(),
            };
            if !stat {
                let t = temp[k];
                let ghost m_pre = self.physics_objects@;
                let bm = self.physics_objects.get_at_mut(i0);
                bm.set_pos(t.pos);
                match t.vel {
                    Some(v) => {
                        bm.set_vel(v);
                    },
                    None => {},
                }
                bm.set_torque(t.torque);
                proof {
                    lemma_wf_after_value_update(
                        m_pre,
                        i0 as int,
                        spec_commit_body(arr_f[k as int], temp_f[k as int]),
                    );
                    assert(self.physics_objects@ == spec_value_update(
                        m_pre,
                        i0 as int,
                        spec_commit_body(arr_f[k as int], temp_f[k as int]),
                    ));
                }
            }
            k = k + 1;
        }

        proof {
            assert(arr0 =~= Seq::new(
                spec_gather(m0.slots, occ_g).len(),
                |k: int| spec_body_bounds(spec_gather(m0.slots, occ_g)[k]),
            ));
            assert(temp0 =~= Seq::new(arr0.len(), |k: int| spec_temp_init(arr0[k])));
            assert(spec_gather(self.physics_objects@.slots, occ_g) =~= spec_commit(
                arr_f,
                temp_f,
            ));
            assert(spec_gather(self.physics_objects@.slots, occ_g) == spec_collision_phase(
                spec_gather(m0.slots, occ_g),
            ));
        }
    }

    /// Advances the simulation by one step: forces cleared, gravity
    /// applied, velocity and movement integrated, collisions resolved
    /// (see [`spec_step_bodies`] for the whole pipeline as one
    /// function of the live bodies and the gravity vector).
    pub fn simulation_step(&mut self)
        requires
            old(self).wf(),
        ensures
            final(self).wf(),
            final(self).physics_objects@.slots.len() == old(self).physics_objects@.slots.len(),
            forall|i: int|
                0 <= i < old(self).physics_objects@.slots.len() ==> (#[trigger] final(self).physics_objects@.slots[i] is Some <==> old(self).physics_objects@.slots[i] is Some),
            final(self).physics_objects@.gens == old(self).physics_objects@.gens,
            final(self).physics_objects@.ptrs == old(self).physics_objects@.ptrs,
            final(self).physics_objects@.free == old(self).physics_objects@.free,
            final(self).physics_objects@.head == old(self).physics_objects@.head,
            final(self).static_objects == old(self).static_objects,
            final(self).global_gravity_dir == old(self).global_gravity_dir,
            final(self).obj_count == old(self).obj_count,
            final(self).width_bound == old(self).width_bound,
            final(self).height_bound == old(self).height_bound,
            spec_gather(
                final(self).physics_objects@.slots,
                crate::gen_vec::occ_indices(old(self).physics_objects@.slots),
            ) == spec_step_bodies(
                spec_gather(
                    old(self).physics_objects@.slots,
                    crate::gen_vec::occ_indices(old(self).physics_objects@.slots),
                ),
                old(self).global_gravity_dir,
            ),
    {
        let ghost m0 = self.physics_objects@;
        let ghost occ0 = crate::gen_vec::occ_indices(m0.slots);
        let ghost gravity = self.global_gravity_dir;
        proof {
            crate::gen_vec::lemma_occ_indices_props::<Body>(m0.slots);
        }
        self.set_forces_to_zero();
        self.simulate_force();
        self.simulate_velocity();
        self.simulate_movement();
        let ghost m4 = self.physics_objects@;
        proof {
            crate::gen_vec::lemma_occ_indices_same_shape(
                m0.slots,
                m4.slots,
                m0.slots.len() as int,
            );
            assert(crate::gen_vec::occ_indices(m4.slots) == occ0);
            assert(spec_gather(m4.slots, occ0) =~= Seq::new(
                spec_gather(m0.slots, occ0).len(),
                |k: int| spec_integrate_body(spec_gather(m0.slots, occ0)[k], gravity),
            ));
        }
        self.collision_detection();
        proof {
            assert(spec_gather(self.physics_objects@.slots, occ0) == spec_step_bodies(
                spec_gather(m0.slots, occ0),
                gravity,
            ));
        }
    }
}

} // verus!
