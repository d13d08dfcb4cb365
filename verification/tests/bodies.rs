//! The shared body interface: accessors, mutators, shape tags.

use rigid2d::body::{Body, CollisionType};
use rigid2d::circle_body::Circle;
use rigid2d::convex_body::Convex2D;
use rigid2d::fixed::SCALE;
use rigid2d::vec2::V2;

fn triangle() -> Convex2D {
    Convex2D::new(
        50_000,
        -20_000,
        vec![V2::new(0, 100_000), V2::new(100_000, -100_000), V2::new(-100_000, -100_000)],
        2_000_000,
    )
}

#[test]
fn new_circle_starts_at_rest() {
    let c = Circle::new(3, 10_000, 20_000, 30_000, 40_000);
    assert_eq!(c.id, 3);
    assert_eq!(c.pos, V2::new(10_000, 20_000));
    assert_eq!(c.r, 30_000);
    assert_eq!(c.m, 40_000);
    assert_eq!(c.vel, V2::new(0, 0));
    assert_eq!(c.force, V2::new(0, 0));
    assert_eq!(c.torque, 0);
    assert_eq!(c.angle, 0);
    assert_eq!(c.inertia, SCALE);
}

#[test]
fn body_accessors_mirror_the_fields() {
    let mut b = Body::Circle(Circle::new(7, 1, 2, 3, 4));
    assert_eq!(b.get_id(), 7);
    assert_eq!(b.get_pos(), V2::new(1, 2));
    assert_eq!(b.get_mass(), 4);
    assert!(!b.is_static());
    assert!(b.get_connections().is_empty());
    assert!(matches!(b.get_col_type(), CollisionType::Circle));

    b.set_pos(V2::new(9, 9));
    b.set_vel(V2::new(1, -1));
    b.set_force(V2::new(5, 5));
    b.set_torque(11);
    b.set_angle(22);
    b.set_angular_accel(33);
    b.set_id(8);
    assert_eq!(b.get_pos(), V2::new(9, 9));
    assert_eq!(b.get_vel(), V2::new(1, -1));
    assert_eq!(b.get_force(), V2::new(5, 5));
    assert_eq!(b.get_torque(), 11);
    assert_eq!(b.get_angle(), 22);
    assert_eq!(b.get_angular_accel(), 33);
    assert_eq!(b.get_id(), 8);

    b.add_pos(&V2::new(1, 1));
    assert_eq!(b.get_pos(), V2::new(10, 10));
}

#[test]
fn convex_body_reports_its_tag_and_inertia() {
    let t = triangle();
    let b = Body::Convex(t);
    assert!(matches!(b.get_col_type(), CollisionType::Convex));
    // Vertex square sum: 0.01 + 0.02 + 0.02 = 0.05; times mass 2.0.
    assert_eq!(b.get_inertia(), 100_000);
}

#[test]
fn angular_acceleration_is_torque_over_inertia() {
    let mut t = triangle();
    t.torque = 50_000;
    // inertia is 0.1, so the angular acceleration is 0.05 / 0.1 = 0.5.
    assert_eq!(t.calc_angular_accel(), 500_000);
    t.inertia = 0;
    // Degenerate inertia is absorbed to zero, not a fault.
    assert_eq!(t.calc_angular_accel(), 0);
}

#[test]
fn static_flag_comes_from_the_polygon() {
    let mut t = triangle();
    t.static_body = true;
    let b = Body::Convex(t);
    assert!(b.is_static());
}
