//! Fixed-point arithmetic and trigonometry: exact expected values.

use rigid2d::fixed::{fx_add, fx_clamp, fx_div, fx_idiv, fx_mul, fx_rem, fx_sub, SCALE};
use rigid2d::trig::{cos_fx, rot_from_angle, sin_fx, HALF_PI_FX, PI_FX};
use rigid2d::vec2::V2;

#[test]
fn products_truncate_toward_zero() {
    // 0.0015 * 0.001 = 0.0000015, which truncates to one tick.
    assert_eq!(fx_mul(1500, 1000), 1);
    assert_eq!(fx_mul(-1500, 1000), -1);
    assert_eq!(fx_mul(2_000_000, 3_000_000), 6_000_000);
    assert_eq!(fx_mul(150_000, 150_000), 22_500);
}

#[test]
fn quotients_truncate_toward_zero() {
    assert_eq!(fx_div(1_000_000, 3_000_000), 333_333);
    assert_eq!(fx_div(-1_000_000, 3_000_000), -333_333);
    assert_eq!(fx_div(7, 2_000_000), 3);
    assert_eq!(fx_idiv(-7, 2), -3);
}

#[test]
fn zero_divisor_yields_zero() {
    assert_eq!(fx_div(123_456, 0), 0);
}

#[test]
fn sums_saturate_at_the_range_edge() {
    assert_eq!(fx_add(i64::MAX, 1), i64::MAX);
    assert_eq!(fx_sub(i64::MIN, 1), i64::MIN);
    assert_eq!(fx_add(2, 3), 5);
    assert_eq!(fx_mul(i64::MAX, i64::MAX), i64::MAX);
    assert_eq!(fx_mul(i64::MIN, i64::MAX), i64::MIN);
}

#[test]
fn clamp_pins_to_the_interval() {
    assert_eq!(fx_clamp(15_000, -10_000, 10_000), 10_000);
    assert_eq!(fx_clamp(-15_000, -10_000, 10_000), -10_000);
    assert_eq!(fx_clamp(3, -10_000, 10_000), 3);
}

#[test]
fn remainder_carries_the_sign_of_the_dividend() {
    assert_eq!(fx_rem(7, 3), 1);
    assert_eq!(fx_rem(-7, 3), -1);
    assert_eq!(fx_rem(6, 3), 0);
}

#[test]
fn cosine_and_sine_at_the_axes() {
    assert_eq!(cos_fx(0), SCALE);
    assert_eq!(sin_fx(0), 0);
    // cos(pi) folds onto -cos(0), exactly.
    assert_eq!(cos_fx(PI_FX), -SCALE);
    // The truncated series at pi/2, evaluated exactly as specified.
    assert_eq!(sin_fx(HALF_PI_FX), 999_844);
    assert_eq!(cos_fx(HALF_PI_FX), 25);
    // One whole turn reduces back to zero.
    assert_eq!(cos_fx(PI_FX + PI_FX), cos_fx(2 * PI_FX));
    assert_eq!(sin_fx(-PI_FX), -sin_fx(PI_FX));
}

#[test]
fn rotation_by_zero_is_the_identity() {
    let rot = rot_from_angle(0);
    let v = V2::new(123_456, -654_321);
    let r = rot.apply(v);
    assert_eq!(r, v);
}

#[test]
fn vector_algebra_matches_componentwise_arithmetic() {
    let a = V2::new(3_000_000, -2_000_000);
    let b = V2::new(500_000, 500_000);
    assert_eq!(a.plus(b), V2::new(3_500_000, -1_500_000));
    assert_eq!(a.minus(b), V2::new(2_500_000, -2_500_000));
    assert_eq!(a.scaled(500_000), V2::new(1_500_000, -1_000_000));
    assert_eq!(a.dot(b), 500_000);
    assert_eq!(a.cross(b), 2_500_000);
    assert_eq!(a.divided(2_000_000), V2::new(1_500_000, -1_000_000));
}
