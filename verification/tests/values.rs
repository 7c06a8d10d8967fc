//! Tests of the fixed-point arithmetic and the transform value type.

use motion::animatable::Animatable;
use motion::fixed::{fp_div_pos, fp_lerp, fp_mul, sat_add, sat_sub, FP_MAX, ONE};
use motion::Transform;

#[test]
fn fixed_mul_exact() {
    assert_eq!(fp_mul(2 * ONE, 3 * ONE), 6 * ONE);
    assert_eq!(fp_mul(-2 * ONE, 3 * ONE), -6 * ONE);
    assert_eq!(fp_mul(ONE / 2, ONE / 2), ONE / 4);
    assert_eq!(fp_mul(0, FP_MAX), 0);
}

#[test]
fn fixed_mul_saturates() {
    assert_eq!(fp_mul(FP_MAX, FP_MAX), FP_MAX);
    assert_eq!(fp_mul(-FP_MAX, FP_MAX), -FP_MAX);
}

#[test]
fn fixed_div_exact() {
    assert_eq!(fp_div_pos(ONE, 2 * ONE), ONE / 2);
    assert_eq!(fp_div_pos(ONE, ONE), ONE);
    assert_eq!(fp_div_pos(3 * ONE, 2 * ONE), 1_500_000);
}

#[test]
fn fixed_sat_add_sub() {
    assert_eq!(sat_add(FP_MAX, FP_MAX), FP_MAX);
    assert_eq!(sat_sub(-FP_MAX, FP_MAX), -FP_MAX);
    assert_eq!(sat_add(1, 2), 3);
    assert_eq!(sat_sub(1, 2), -1);
}

#[test]
fn fixed_lerp_exact() {
    assert_eq!(fp_lerp(0, 10, 500_000), 5);
    assert_eq!(fp_lerp(0, ONE, 250_000), 250_000);
    assert_eq!(fp_lerp(ONE, 0, 250_000), 750_000);
    assert_eq!(fp_lerp(-ONE, ONE, 500_000), 0);
}

#[test]
fn transform_interpolation_endpoints() {
    let a = Transform::new(0, 0, ONE, 0);
    let b = Transform::new(1_000_000, -500_000, 2 * ONE, 3_141_592);
    assert_eq!(a.interpolate(&b, 0), a);
    assert_eq!(a.interpolate(&b, ONE), b);
}

#[test]
fn transform_midpoint_exact() {
    let a = Transform::new(0, 0, 0, 0);
    let b = Transform::new(1_000_000, 400_000, 2 * ONE, -600_000);
    let mid = a.interpolate(&b, 500_000);
    assert_eq!(mid, Transform::new(500_000, 200_000, ONE, -300_000));
}

#[test]
fn transform_arithmetic() {
    let a = Transform::new(100, 200, 300, 400);
    let b = Transform::new(1, 2, 3, 4);
    assert_eq!(a.add(&b), Transform::new(101, 202, 303, 404));
    assert_eq!(a.sub(&b), Transform::new(99, 198, 297, 396));
    assert_eq!(a.scale(2 * ONE), Transform::new(200, 400, 600, 800));
}

#[test]
fn scalar_magnitude_squared() {
    let v: i64 = -2_000;
    assert_eq!(v.magnitude_sq(), 4_000_000u128);
    assert_eq!(<i64 as Animatable>::zero(), 0);
}
