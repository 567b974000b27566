use photon_transport::scalar::{Scalar, INFINITY_BITS, SIGN_BIT};

fn s(x: f64) -> Scalar {
    Scalar::from_bits(x.to_bits())
}

fn samples() -> Vec<f64> {
    vec![
        0.0,
        -0.0,
        1.0,
        -1.0,
        0.1,
        -0.1,
        5.0,
        10.0,
        -10.0,
        1.0e-310,
        -1.0e-310,
        f64::MIN_POSITIVE,
        f64::MAX,
        f64::MIN,
        f64::EPSILON,
        f64::INFINITY,
        f64::NEG_INFINITY,
        f64::NAN,
        -f64::NAN,
        380.0,
        440.0,
        749.999_999,
    ]
}

#[test]
fn order_is_that_of_the_numbers() {
    for a in samples() {
        for b in samples() {
            assert_eq!(s(a).lt(s(b)), a < b, "{} < {}", a, b);
            assert_eq!(s(a).le(s(b)), a <= b, "{} <= {}", a, b);
            assert_eq!(s(a).gt(s(b)), a > b, "{} > {}", a, b);
            assert_eq!(s(a).ge(s(b)), a >= b, "{} >= {}", a, b);
        }
    }
}

#[test]
fn nan_is_told_from_numbers() {
    for a in samples() {
        assert_eq!(s(a).is_nan(), a.is_nan(), "{}", a);
    }
    assert!(!Scalar::from_bits(INFINITY_BITS).is_nan());
    assert!(Scalar::from_bits(INFINITY_BITS + 1).is_nan());
    assert!(!Scalar::from_bits(SIGN_BIT + INFINITY_BITS).is_nan());
    assert!(Scalar::from_bits(u64::MAX).is_nan());
}

#[test]
fn min_is_the_smaller_number() {
    for a in samples() {
        for b in samples() {
            let m = f64::from_bits(s(a).min(s(b)).to_bits());
            let expected = a.min(b);
            if expected.is_nan() {
                assert!(m.is_nan());
            } else {
                assert_eq!(m, expected, "min({}, {})", a, b);
            }
        }
    }
}

#[test]
fn min_of_equal_numbers_is_the_first() {
    assert_eq!(s(0.0).min(s(-0.0)).to_bits(), 0.0f64.to_bits());
    assert_eq!(s(-0.0).min(s(0.0)).to_bits(), (-0.0f64).to_bits());
    assert_eq!(s(f64::NAN).min(s(3.0)).to_bits(), 3.0f64.to_bits());
    assert_eq!(s(3.0).min(s(f64::NAN)).to_bits(), 3.0f64.to_bits());
}

#[test]
fn bits_go_in_and_come_out() {
    assert_eq!(Scalar::from_bits(0x4014_0000_0000_0000).to_bits(), 5.0f64.to_bits());
    assert_eq!(Scalar::zero().to_bits(), 0);
    assert_eq!(Scalar::zero(), s(0.0));
}
