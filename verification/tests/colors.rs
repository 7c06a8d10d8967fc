//! Tests of the color type: construction, byte conversion and interpolation.

use motion::animatable::Animatable;
use motion::fixed::ONE;
use motion::Color;

#[test]
fn test_color_new() {
    let color = Color::new(1_000_000, 500_000, 0, 1_000_000);
    assert_eq!(color.r, 1_000_000);
    assert_eq!(color.g, 500_000);
    assert_eq!(color.b, 0);
    assert_eq!(color.a, 1_000_000);
}

#[test]
fn test_color_from_rgba() {
    let color = Color::from_rgba(255, 128, 0, 255);
    assert_eq!(color.r, 1_000_000);
    assert_eq!(color.g, 501_960); // 128 * ONE / 255, truncated
    assert_eq!(color.b, 0);
    assert_eq!(color.a, 1_000_000);
}

#[test]
fn test_color_lerp() {
    let start = Color::new(0, 0, 0, 1_000_000);
    let end = Color::new(1_000_000, 1_000_000, 1_000_000, 1_000_000);
    let mid = start.interpolate(&end, 500_000);

    assert_eq!(mid.r, 500_000);
    assert_eq!(mid.g, 500_000);
    assert_eq!(mid.b, 500_000);
    assert_eq!(mid.a, 1_000_000);
}

#[test]
fn test_color_to_rgba() {
    let color = Color::new(1_000_000, 500_000, 0, 1_000_000);
    let (r, g, b, a) = color.to_rgba();
    assert_eq!(r, 255);
    assert_eq!(g, 128);
    assert_eq!(b, 0);
    assert_eq!(a, 255);
}

#[test]
fn test_color_new_clamps() {
    let color = Color::new(2_000_000, -5, 1_000_001, -1_000_000);
    assert_eq!(color.r, ONE);
    assert_eq!(color.g, 0);
    assert_eq!(color.b, ONE);
    assert_eq!(color.a, 0);
}

#[test]
fn test_color_roundtrip_all_bytes() {
    for v in 0..=255u8 {
        let c = Color::from_rgba(v, v, v, v);
        assert_eq!(c.to_rgba(), (v, v, v, v));
    }
}

#[test]
fn test_color_roundtrip_mixed() {
    let cases = [(0u8, 255u8, 17u8, 200u8), (1, 2, 3, 4), (254, 128, 127, 129)];
    for (r, g, b, a) in cases {
        assert_eq!(Color::from_rgba(r, g, b, a).to_rgba(), (r, g, b, a));
    }
}

#[test]
fn test_color_interpolate_endpoints() {
    let x = Color::new(100_000, 200_000, 300_000, 400_000);
    let y = Color::new(900_000, 800_000, 700_000, 600_000);
    assert_eq!(x.interpolate(&y, 0), x);
    assert_eq!(x.interpolate(&y, ONE), y);
}

#[test]
fn test_color_sub_clamps_at_zero() {
    let x = Color::new(100_000, 0, 500_000, ONE);
    let y = Color::new(200_000, 0, 100_000, ONE);
    let d = x.sub(&y);
    assert_eq!(d.r, 0); // a negative channel clamps to zero
    assert_eq!(d.g, 0);
    assert_eq!(d.b, 400_000);
    assert_eq!(d.a, 0);
}
