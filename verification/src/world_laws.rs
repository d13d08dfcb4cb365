//! Laws of the simulation step.

use crate::body::Body;
use crate::fixed::{div_trunc, iabs, sat64, spec_fx_mul, SCALE};
use crate::physics_world::{
    spec_body_bounds, spec_integrate_body, spec_step_bodies, BOUND_LIMIT, BOUND_SNAP, VEL_FLIP,
};
use crate::vec2::V2;
use vstd::prelude::*;

verus! {

/// Scaling a fixed-point value by `-1.0` is an exact sign flip (up to
/// saturation at the edge of the range).
proof fn lemma_fx_mul_neg_one(v: int)
    requires
        i64::MIN <= v <= i64::MAX,
    ensures
        spec_fx_mul(v, VEL_FLIP as int) == sat64(-v),
{
    let prod = v * (VEL_FLIP as int);
    assert(iabs(prod) == (SCALE as int) * iabs(v)) by (nonlinear_arith)
        requires
            prod == v * (VEL_FLIP as int),
            VEL_FLIP == -1_000_000,
            SCALE == 1_000_000,
    ;
    vstd::arithmetic::div_mod::lemma_div_multiples_vanish(iabs(v), SCALE as int);
    assert(iabs(prod) / iabs(SCALE as int) == iabs(v));
    assert(v > 0 ==> prod < 0) by (nonlinear_arith)
        requires
            prod == v * (VEL_FLIP as int),
            VEL_FLIP == -1_000_000,
    ;
    assert(v < 0 ==> prod > 0) by (nonlinear_arith)
        requires
            prod == v * (VEL_FLIP as int),
            VEL_FLIP == -1_000_000,
    ;
    assert(v == 0 ==> prod == 0) by (nonlinear_arith)
        requires
            prod == v * (VEL_FLIP as int),
    ;
    assert(div_trunc(prod, SCALE as int) == -v);
}

/// Advancing the simulation is a pure function of the live bodies and
/// the gravity vector: two worlds in the same configuration step to the
/// same configuration — there is no hidden input.
pub proof fn lemma_step_deterministic(bodies1: Seq<Body>, g1: V2, bodies2: Seq<Body>, g2: V2)
    requires
        bodies1 == bodies2,
        g1 == g2,
    ensures
        spec_step_bodies(bodies1, g1) == spec_step_bodies(bodies2, g2),
{
}

/// A lone non-static body whose integrated motion crosses the y bound
/// comes out of the step snapped just inside the bound, with the sign
/// of its vertical velocity flipped.
pub proof fn lemma_step_clamps_y_bound(b: Body, g: V2)
    requires
        !b.spec_is_static(),
        ({
            let ib = spec_integrate_body(b, g);
            sat64(ib.spec_pos().y + ib.spec_vel().y) < -(BOUND_LIMIT as int) || sat64(
                ib.spec_pos().y + ib.spec_vel().y,
            ) > BOUND_LIMIT as int
        }),
    ensures
        ({
            let ib = spec_integrate_body(b, g);
            let r = spec_step_bodies(seq![b], g)[0];
            &&& -(BOUND_LIMIT as int) <= r.spec_pos().y <= BOUND_LIMIT as int
            &&& r.spec_pos().y == (if ib.spec_pos().y < 0 {
                -(BOUND_SNAP as int)
            } else {
                BOUND_SNAP as int
            })
            &&& r.spec_vel().y == sat64(-ib.spec_vel().y)
        }),
{
    let ib = spec_integrate_body(b, g);
    let integrated = Seq::new(seq![b].len(), |k: int| spec_integrate_body(seq![b][k], g));
    assert(integrated =~= seq![ib]);
    let bb = spec_body_bounds(ib);
    let bounded = Seq::new(integrated.len(), |k: int| spec_body_bounds(integrated[k]));
    assert(bounded =~= seq![bb]);
    let temp0 = Seq::new(bounded.len(), |k: int| crate::physics_world::spec_temp_init(bounded[k]));
    assert(temp0 =~= seq![crate::physics_world::spec_temp_init(bb)]);
    let pt = crate::physics_world::spec_pairs_from(bounded, temp0, 0, 1, 1);
    assert(pt == crate::physics_world::spec_pairs_from(bounded, temp0, 1, 2, 1));
    assert(pt == (bounded, temp0));
    assert(!ib.spec_is_static());
    assert(!bb.spec_is_static());
    let committed = crate::physics_world::spec_commit(pt.0, pt.1);
    assert(committed[0] == crate::physics_world::spec_commit_body(
        bb,
        crate::physics_world::spec_temp_init(bb),
    ));
    assert(crate::physics_world::spec_commit_body(
        bb,
        crate::physics_world::spec_temp_init(bb),
    ) == bb) by {
        match bb {
            Body::Circle(c) => {
                assert(bb.spec_with_pos(bb.spec_pos()) == bb);
            },
            Body::Convex(v) => {
                assert(bb.spec_with_pos(bb.spec_pos()) == bb);
            },
        }
    }
    assert(spec_step_bodies(seq![b], g) == committed);
    lemma_fx_mul_neg_one(ib.spec_vel().y as int);
    assert(spec_step_bodies(seq![b], g)[0] == bb);
}

} // verus!
