//! The world pipeline: determinism, the bound clamp, gravity.

use rigid2d::body::{Body, CollisionType};
use rigid2d::circle_body::Circle;
use rigid2d::convex_body::Convex2D;
use rigid2d::physics_world::World;
use rigid2d::vec2::V2;

fn demo_world() -> World {
    let mut w = World::new();
    let mut a = Body::Circle(Circle::new(0, -300_000, 200_000, 70_000, 6_000_000));
    a.set_vel(V2::new(4_000, -2_000));
    w.add_phy_obj(a);
    let mut b = Body::Circle(Circle::new(0, -250_000, 180_000, 70_000, 3_000_000));
    b.set_vel(V2::new(-3_000, 1_000));
    w.add_phy_obj(b);
    let c = Body::Convex(Convex2D::new(
        150_000,
        -400_000,
        vec![
            V2::new(200_000, 200_000),
            V2::new(200_000, -200_000),
            V2::new(-200_000, -200_000),
            V2::new(-200_000, 200_000),
        ],
        5_000_000,
    ));
    w.add_phy_obj(c);
    w
}

fn snapshot(w: &World) -> Vec<(V2, V2, i64, i64)> {
    w.physics_objects
        .iter()
        .into_iter()
        .map(|b| (b.get_pos(), b.get_vel(), b.get_angle(), b.get_torque()))
        .collect()
}

#[test]
fn two_identical_worlds_step_identically() {
    let mut w1 = demo_world();
    let mut w2 = demo_world();
    for _ in 0..5 {
        w1.simulation_step();
        w2.simulation_step();
        assert_eq!(snapshot(&w1), snapshot(&w2));
    }
}

#[test]
fn stepping_twice_from_one_start_matches_a_parallel_run() {
    // The same start, advanced separately, lands bit-identically.
    let mut w1 = demo_world();
    w1.simulation_step();
    w1.simulation_step();
    let mut w2 = demo_world();
    w2.simulation_step();
    w2.simulation_step();
    assert_eq!(snapshot(&w1), snapshot(&w2));
}

#[test]
fn out_of_bounds_body_is_clamped_with_velocity_flipped() {
    let mut w = World::new();
    let mut b = Body::Circle(Circle::new(0, 0, 1_500_000, 70_000, 6_000_000));
    b.set_vel(V2::new(0, -5_000));
    w.add_phy_obj(b);
    w.simulation_step();
    let bodies = w.physics_objects.iter();
    let body = bodies[0];
    // Snapped just inside the bound, on the side the body was on.
    assert_eq!(body.get_pos().y, 980_000);
    assert!(body.get_pos().y <= 990_000);
    // The vertical velocity sign flipped: it was falling at 4959 ticks
    // after damping and gravity, and now rises at the same rate.
    assert_eq!(body.get_vel().y, 4_959);
}

#[test]
fn gravity_accelerates_a_free_body_downward() {
    let mut w = World::new();
    let b = Body::Circle(Circle::new(0, 0, 0, 70_000, 6_000_000));
    w.add_phy_obj(b);
    w.simulation_step();
    let bodies = w.physics_objects.iter();
    let body = bodies[0];
    // force = mass * gravity * factor = 6.0 * (-0.01) * 0.0009 = -54 ticks;
    // velocity = 0 * damping + force / mass = -9 ticks; position follows.
    assert_eq!(body.get_force().y, -54);
    assert_eq!(body.get_vel().y, -9);
    assert_eq!(body.get_pos().y, -9);
    assert_eq!(body.get_pos().x, 0);
}

#[test]
fn static_bodies_never_move() {
    let mut w = World::new();
    let mut pinned = Convex2D::new(
        0,
        -500_000,
        vec![
            V2::new(200_000, 200_000),
            V2::new(200_000, -200_000),
            V2::new(-200_000, -200_000),
            V2::new(-200_000, 200_000),
        ],
        5_000_000,
    );
    pinned.static_body = true;
    w.add_phy_obj(Body::Convex(pinned));
    for _ in 0..3 {
        w.simulation_step();
    }
    let bodies = w.physics_objects.iter();
    assert_eq!(bodies[0].get_pos(), V2::new(0, -500_000));
    assert_eq!(bodies[0].get_vel(), V2::new(0, 0));
}

#[test]
fn colliding_circles_are_rolled_back_and_exchange_impulse() {
    let mut w = World::new();
    let mut a = Body::Circle(Circle::new(0, -60_000, 0, 70_000, 6_000_000));
    a.set_vel(V2::new(5_000, 0));
    let mut b = Body::Circle(Circle::new(0, 60_000, 0, 70_000, 6_000_000));
    b.set_vel(V2::new(-5_000, 0));
    w.add_phy_obj(a);
    w.add_phy_obj(b);
    let before = snapshot(&w);
    w.simulation_step();
    let after = snapshot(&w);
    // The circles overlap, so both were rolled back and their
    // velocities exchanged through the central-impact formula: with
    // equal masses the approach turns into retreat.
    assert!(after[0].1.x < 0, "left circle bounces back, got {:?}", after[0].1);
    assert!(after[1].1.x > 0, "right circle bounces back, got {:?}", after[1].1);
    assert!(before[0].0.x != after[0].0.x || before[0].1.x != after[0].1.x);
}

#[test]
fn body_ids_are_assigned_sequentially() {
    let mut w = World::new();
    let id0 = w.add_phy_obj(Body::Circle(Circle::new(9, 0, 0, 10_000, 1_000_000)));
    let id1 = w.add_phy_obj(Body::Circle(Circle::new(9, 0, 0, 10_000, 1_000_000)));
    assert_eq!((id0, id1), (0, 1));
    let bodies = w.physics_objects.iter();
    assert_eq!(bodies[0].get_id(), 0);
    assert_eq!(bodies[1].get_id(), 1);
}

#[test]
fn add_circles_seeds_the_demo_scene() {
    let mut w = World::new();
    w.add_circles();
    let bodies = w.physics_objects.iter();
    assert_eq!(bodies.len(), 1);
    assert_eq!(bodies[0].get_pos(), V2::new(-800_000, 800_000));
    assert!(matches!(bodies[0].get_col_type(), CollisionType::Circle));
}

#[test]
fn gravity_direction_can_be_steered() {
    let mut w = World::new();
    w.set_global_gravity_direction(V2::new(10_000, 0));
    let b = Body::Circle(Circle::new(0, 0, 0, 70_000, 6_000_000));
    w.add_phy_obj(b);
    w.simulation_step();
    let bodies = w.physics_objects.iter();
    assert_eq!(bodies[0].get_vel().x, 9);
    assert_eq!(bodies[0].get_vel().y, 0);
}
