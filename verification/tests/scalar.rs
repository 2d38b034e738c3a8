use rust_ray_tracing::scalar::{Scalar, INFINITY_BITS, ONE_BITS, SIGN_BIT};
use rust_ray_tracing::vectors::color::Color;
use rust_ray_tracing::vectors::point::Point;
use rust_ray_tracing::vectors::vector::{Vector, NEAR_ZERO_BITS};

fn s(x: f64) -> Scalar {
    Scalar::from_bits(x.to_bits())
}

fn f(x: Scalar) -> f64 {
    f64::from_bits(x.to_bits())
}

fn samples() -> Vec<f64> {
    vec![
        0.0,
        -0.0,
        1.0,
        -1.0,
        0.001,
        -0.001,
        1e-8,
        -1e-8,
        5e-324,
        -5e-324,
        2.2250738585072014e-308,
        0.5,
        0.7,
        1.0000000000000002,
        0.9999999999999999,
        3.5,
        -3.5,
        1e300,
        -1e300,
        f64::MAX,
        f64::MIN,
        f64::INFINITY,
        f64::NEG_INFINITY,
        f64::NAN,
        -f64::NAN,
        f64::from_bits(0x7FF0_0000_0000_0001),
        f64::from_bits(0xFFFF_FFFF_FFFF_FFFF),
    ]
}

#[test]
fn bits_round_trip() {
    for x in samples() {
        assert_eq!(s(x).to_bits(), x.to_bits());
        assert_eq!(Scalar::from_bits(x.to_bits()).bits, x.to_bits());
    }
}

#[test]
fn constants_are_the_numbers_they_name() {
    assert_eq!(f(Scalar::zero()), 0.0);
    assert_eq!(Scalar::zero().to_bits(), 0);
    assert_eq!(f(Scalar::one()), 1.0);
    assert_eq!(f(Scalar::infinity()), f64::INFINITY);
    assert_eq!(f64::from_bits(ONE_BITS), 1.0);
    assert_eq!(f64::from_bits(INFINITY_BITS), f64::INFINITY);
    assert_eq!(f64::from_bits(SIGN_BIT).to_bits(), (-0.0f64).to_bits());
    assert_eq!(f64::from_bits(NEAR_ZERO_BITS), 1e-8);
}

#[test]
fn less_than_agrees_with_the_hardware() {
    for a in samples() {
        for b in samples() {
            assert_eq!(s(a).lt(s(b)), a < b, "{} < {}", a, b);
        }
    }
}

#[test]
fn at_most_agrees_with_the_hardware() {
    for a in samples() {
        for b in samples() {
            assert_eq!(s(a).le(s(b)), a <= b, "{} <= {}", a, b);
        }
    }
}

#[test]
fn is_nan_agrees_with_the_hardware() {
    for a in samples() {
        assert_eq!(s(a).is_nan(), a.is_nan(), "{}", a);
    }
}

#[test]
fn negation_flips_the_sign_bit() {
    for a in samples() {
        assert_eq!(s(a).neg().to_bits(), (-a).to_bits(), "{}", a);
    }
    assert_eq!(s(0.0).neg().to_bits(), SIGN_BIT);
    assert_eq!(f(s(2.5).neg()), -2.5);
}

#[test]
fn absolute_value_clears_the_sign_bit() {
    for a in samples() {
        assert_eq!(s(a).abs().to_bits(), a.abs().to_bits(), "{}", a);
    }
    assert_eq!(f(s(-2.5).abs()), 2.5);
}

#[test]
fn both_zeros_compare_equal() {
    assert!(!s(-0.0).lt(s(0.0)));
    assert!(!s(0.0).lt(s(-0.0)));
    assert!(s(-0.0).le(s(0.0)));
    assert!(s(0.0).le(s(-0.0)));
}

#[test]
fn nothing_compares_with_nan() {
    let nan = s(f64::NAN);
    for a in samples() {
        assert!(!nan.lt(s(a)));
        assert!(!s(a).lt(nan));
        assert!(!nan.le(s(a)));
        assert!(!s(a).le(nan));
    }
}

#[test]
fn vector_new_keeps_components() {
    let v = Vector::new(s(1.0), s(-2.0), s(3.5));
    assert_eq!(f(v.x), 1.0);
    assert_eq!(f(v.y), -2.0);
    assert_eq!(f(v.z), 3.5);
    let p = Point::new(s(4.0), s(5.0), s(-6.0));
    assert_eq!(f(p.x), 4.0);
    assert_eq!(f(p.y), 5.0);
    assert_eq!(f(p.z), -6.0);
}

#[test]
fn vector_negation_negates_each_component() {
    let v = Vector::new(s(1.0), s(-2.0), s(0.0)).neg();
    assert_eq!(f(v.x), -1.0);
    assert_eq!(f(v.y), 2.0);
    assert_eq!(v.z.to_bits(), (-0.0f64).to_bits());
}

#[test]
fn near_zero_needs_every_component_small() {
    assert!(Vector::new(s(0.0), s(0.0), s(0.0)).near_zero());
    assert!(Vector::new(s(9.9e-9), s(-9.9e-9), s(-0.0)).near_zero());
    assert!(!Vector::new(s(1e-8), s(0.0), s(0.0)).near_zero());
    assert!(!Vector::new(s(0.0), s(-1e-8), s(0.0)).near_zero());
    assert!(!Vector::new(s(0.0), s(0.0), s(2e-8)).near_zero());
    assert!(!Vector::new(s(1.0), s(1.0), s(1.0)).near_zero());
    assert!(!Vector::new(s(f64::NAN), s(0.0), s(0.0)).near_zero());
}

#[test]
fn color_new_keeps_channels() {
    let c = Color::new(s(0.5), s(0.7), s(1.0));
    assert_eq!(f(c.red), 0.5);
    assert_eq!(f(c.green), 0.7);
    assert_eq!(f(c.blue), 1.0);
}

#[test]
fn zeroes_is_black() {
    let c = Color::zeroes();
    assert_eq!(c.red.to_bits(), 0);
    assert_eq!(c.green.to_bits(), 0);
    assert_eq!(c.blue.to_bits(), 0);
    assert_eq!(f(c.red), 0.0);
}

#[test]
fn ones_is_white() {
    let c = Color::ones();
    assert_eq!(f(c.red), 1.0);
    assert_eq!(f(c.green), 1.0);
    assert_eq!(f(c.blue), 1.0);
}
