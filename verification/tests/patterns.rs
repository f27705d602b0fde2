use fredulator::binary64::{
    absolute, is_negligible, negate, EPSILON, EPSILON_EXPONENT, HUNDRED, INFINITY, SIGN_BIT, ZERO,
};

fn samples() -> Vec<f64> {
    vec![
        0.0,
        -0.0,
        1.0,
        -1.0,
        3.0,
        5.0,
        100.0,
        0.1,
        -0.1,
        1e-300,
        -1e-300,
        5e-324,
        2.2250738585072014e-308,
        1e-17,
        -1e-17,
        f64::EPSILON,
        -f64::EPSILON,
        f64::EPSILON / 2.0,
        f64::EPSILON * 0.9999999999999999,
        f64::EPSILON * 1.0000000000000002,
        2.220446049250313e-16,
        2.2204460492503126e-16,
        1e300,
        f64::MAX,
        f64::MIN,
        f64::MIN_POSITIVE,
        f64::INFINITY,
        f64::NEG_INFINITY,
        f64::NAN,
        -f64::NAN,
    ]
}

#[test]
fn constants_are_the_patterns_of_their_numbers() {
    assert_eq!(ZERO, 0.0f64.to_bits());
    assert_eq!(HUNDRED, 100.0f64.to_bits());
    assert_eq!(EPSILON, f64::EPSILON.to_bits());
    assert_eq!(INFINITY, f64::INFINITY.to_bits());
    assert_eq!(SIGN_BIT, (-0.0f64).to_bits());
    assert_eq!(EPSILON_EXPONENT, (EPSILON >> 52) & 0x7FF);
    assert_eq!(f64::from_bits(EPSILON), 2.0f64.powi(-52));
}

#[test]
fn negate_is_floating_point_negation() {
    for x in samples() {
        assert_eq!(negate(x.to_bits()), (-x).to_bits(), "negating {x:?}");
    }
    assert_eq!(negate(5.0f64.to_bits()), (-5.0f64).to_bits());
    assert_eq!(negate(ZERO), SIGN_BIT);
    assert_eq!(negate(SIGN_BIT), ZERO);
    assert_eq!(negate(0x7FF8_0000_0000_0001), 0xFFF8_0000_0000_0001);
}

#[test]
fn negate_twice_is_the_identity() {
    for x in samples() {
        assert_eq!(negate(negate(x.to_bits())), x.to_bits());
    }
}

#[test]
fn absolute_is_floating_point_abs() {
    for x in samples() {
        assert_eq!(absolute(x.to_bits()), x.abs().to_bits(), "abs of {x:?}");
    }
    assert_eq!(absolute(u64::MAX), 0x7FFF_FFFF_FFFF_FFFF);
}

#[test]
fn is_negligible_is_comparison_with_epsilon() {
    for x in samples() {
        assert_eq!(is_negligible(x.to_bits()), x.abs() < f64::EPSILON, "testing {x:?}");
    }
}

#[test]
fn is_negligible_at_the_edges() {
    assert!(is_negligible(ZERO));
    assert!(is_negligible(SIGN_BIT));
    assert!(is_negligible(EPSILON - 1));
    assert!(is_negligible((EPSILON - 1) | SIGN_BIT));
    assert!(!is_negligible(EPSILON));
    assert!(!is_negligible(EPSILON | SIGN_BIT));
    assert!(!is_negligible(EPSILON + 1));
    assert!(!is_negligible(INFINITY));
    assert!(!is_negligible(INFINITY | SIGN_BIT));
    assert!(!is_negligible(INFINITY + 1));
    assert!(!is_negligible(u64::MAX));
    assert!(!is_negligible(1.0f64.to_bits()));
}

#[test]
fn is_negligible_follows_the_exponent() {
    let mut exponent: u64 = 0;
    while exponent < 2048 {
        for fraction in [0u64, 1, 0x8_0000_0000_0000, 0xF_FFFF_FFFF_FFFF] {
            let bits = (exponent << 52) | fraction;
            assert_eq!(is_negligible(bits), exponent < EPSILON_EXPONENT);
            assert_eq!(is_negligible(bits | SIGN_BIT), exponent < EPSILON_EXPONENT);
            assert_eq!(is_negligible(bits), f64::from_bits(bits).abs() < f64::EPSILON);
        }
        exponent += 1;
    }
}
