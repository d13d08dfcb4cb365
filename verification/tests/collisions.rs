//! Narrow-phase collision predicates: circles, circle against polygon,
//! GJK and its SAT cross-check.

use rigid2d::circle_body::Circle;
use rigid2d::col_relations::{
    circle_circle_check_col, circle_circle_pos_reset_to, circle_convex_check_col,
    convex_convex_collision, get_closest_point_to_line, gjk_col_check, point_in_line_bounds,
    sat_col_check,
};
use rigid2d::convex_body::Convex2D;
use rigid2d::vec2::V2;

/// A square of the given half-side centered on its position, with its
/// vertex ring wound clockwise so the SAT edge normals face outward.
fn square(x: i64, y: i64, half: i64) -> Convex2D {
    Convex2D::new(
        x,
        y,
        vec![
            V2::new(half, half),
            V2::new(half, -half),
            V2::new(-half, -half),
            V2::new(-half, half),
        ],
        1_000_000,
    )
}

#[test]
fn circles_at_015_collide_and_at_025_do_not() {
    let a = Circle::new(0, 0, 0, 100_000, 1_000_000);
    let b = Circle::new(1, 150_000, 0, 100_000, 1_000_000);
    let c = Circle::new(2, 250_000, 0, 100_000, 1_000_000);
    assert!(circle_circle_check_col(&a, &b));
    assert!(!circle_circle_check_col(&a, &c));
}

#[test]
fn circle_reset_rolls_back_by_velocity() {
    let mut a = Circle::new(0, 100_000, 0, 100_000, 1_000_000);
    a.vel = V2::new(10_000, -5_000);
    let b = Circle::new(1, 150_000, 0, 100_000, 1_000_000);
    let (ta, tb) = circle_circle_pos_reset_to(&a, &b).unwrap();
    assert_eq!(ta.pos, V2::new(90_000, 5_000));
    assert_eq!(ta.vel, None);
    assert_eq!(ta.torque, 0);
    assert_eq!(tb.pos, V2::new(150_000, 0));
}

#[test]
fn circle_on_square_edge_midpoint_collides() {
    let sq = square(0, 0, 200_000);
    let c = Circle::new(0, 200_000, 0, 50_000, 1_000_000);
    assert!(circle_convex_check_col(&c, &sq));
}

#[test]
fn circle_far_from_square_does_not_collide() {
    let sq = square(0, 0, 200_000);
    // Centered at the far corner plus ten units of offset.
    let c = Circle::new(0, 200_000 + 10_000_000, 200_000 + 10_000_000, 50_000, 1_000_000);
    assert!(!circle_convex_check_col(&c, &sq));
}

#[test]
fn closest_point_projects_onto_the_line() {
    let (cx, cy) = get_closest_point_to_line(200_000, 0, 200_000, 200_000, 200_000, -200_000);
    assert_eq!((cx, cy), (200_000, 0));
    assert!(point_in_line_bounds(cx, cy, 200_000, 200_000, 200_000, -200_000));
    assert!(!point_in_line_bounds(0, 0, 200_000, 200_000, 200_000, -200_000));
}

#[test]
fn gjk_overlapping_squares_collide() {
    let a = square(0, 0, 200_000);
    let b = square(300_000, 0, 200_000);
    assert!(gjk_col_check(&a, &b));
    assert!(convex_convex_collision(&a, &b));
}

#[test]
fn gjk_separated_squares_do_not_collide() {
    let a = square(0, 0, 200_000);
    let b = square(1_000_000, 0, 200_000);
    assert!(!gjk_col_check(&a, &b));
}

#[test]
fn sat_agrees_with_gjk_on_every_exercised_case() {
    let cases: Vec<(Convex2D, Convex2D)> = vec![
        (square(0, 0, 200_000), square(300_000, 0, 200_000)),
        (square(0, 0, 200_000), square(1_000_000, 0, 200_000)),
        (square(0, 0, 200_000), square(0, 1_000_000, 200_000)),
        (square(-100_000, -50_000, 150_000), square(100_000, 100_000, 150_000)),
        (square(-500_000, 0, 100_000), square(500_000, 0, 100_000)),
        (square(0, 0, 200_000), square(350_000, 150_000, 200_000)),
    ];
    for (a, b) in &cases {
        assert_eq!(sat_col_check(a, b), gjk_col_check(a, b));
    }
}

#[test]
fn minkowski_difference_enumerates_all_vertex_pairs() {
    let a = square(0, 0, 200_000);
    let b = square(300_000, 0, 100_000);
    let diff = rigid2d::col_relations::minkowski_difference(&a, &b);
    assert_eq!(diff.len(), 16);
    // First entry: first vertex of each shape, transformed, subtracted.
    assert_eq!(diff[0], V2::new(-200_000, 100_000));
    // Last entry: last vertex of each.
    assert_eq!(diff[15], V2::new(-400_000, 100_000));
}

#[test]
fn polygon_inertia_uses_the_vertex_square_sum() {
    // Each corner of this square is at squared distance 0.08 from the
    // center; four corners and mass 2.0 give 2.0 * 0.32 = 0.64.
    let sq = Convex2D::new(
        0,
        0,
        vec![
            V2::new(200_000, 200_000),
            V2::new(200_000, -200_000),
            V2::new(-200_000, -200_000),
            V2::new(-200_000, 200_000),
        ],
        2_000_000,
    );
    assert_eq!(sq.inertia, 640_000);
    assert_eq!(sq.calc_inertia(), 640_000);
}

#[test]
fn torque_is_the_planar_cross_product() {
    let sq = square(0, 0, 200_000);
    let r = V2::new(1_000_000, 0);
    let f = V2::new(0, 500_000);
    assert_eq!(sq.calc_torque(&r, &f), 500_000);
    assert_eq!(sq.calc_torque(&f, &r), -500_000);
}

#[test]
fn transformed_vertex_rotates_then_translates() {
    let sq = square(100_000, 50_000, 200_000);
    let rot = rigid2d::trig::rot_from_angle(0);
    assert_eq!(sq.transformed_vertex(&rot, 0), V2::new(300_000, 250_000));
    // A half turn sends each corner to the opposite side.
    let rot_pi = rigid2d::trig::rot_from_angle(rigid2d::trig::PI_FX);
    assert_eq!(sq.transformed_vertex(&rot_pi, 0), V2::new(-100_000, -150_000));
}

#[test]
fn aabb_line_test_accounts_for_velocity_and_radius() {
    let mut c = Circle::new(0, 0, 950_000, 100_000, 1_000_000);
    c.vel = V2::new(0, 10_000);
    // Vertically the circle pokes over 0.99 after one velocity step.
    assert!(c.check_col_with_aabb_line(-990_000, 990_000, true));
    // Horizontally it stays well inside.
    assert!(!c.check_col_with_aabb_line(-990_000, 990_000, false));
}
