use ascii_cube::ieee::{exceeds, negate, truncate, INFINITY_BITS, SIGN_BIT};

fn probes() -> Vec<f64> {
    vec![
        0.0,
        -0.0,
        1.0,
        -1.0,
        0.5,
        -0.5,
        1.0 / 50.0,
        1.0 / 70.0,
        80.96,
        -80.96,
        f64::MIN_POSITIVE,
        -f64::MIN_POSITIVE,
        5e-324,
        -5e-324,
        4503599627370496.0,
        9007199254740993.0,
        9223372036854774784.0,
        9223372036854775808.0,
        -9223372036854775808.0,
        -9223372036854777856.0,
        1e30,
        -1e30,
        f64::MAX,
        f64::MIN,
        f64::INFINITY,
        f64::NEG_INFINITY,
        f64::NAN,
        -f64::NAN,
    ]
}

#[test]
fn exceeds_agrees_with_float_comparison() {
    for a in probes() {
        for b in probes() {
            assert_eq!(exceeds(a.to_bits(), b.to_bits()), a > b, "{a} > {b}");
        }
    }
}

#[test]
fn exceeds_treats_both_zeros_alike() {
    assert!(!exceeds(0.0f64.to_bits(), (-0.0f64).to_bits()));
    assert!(!exceeds((-0.0f64).to_bits(), 0.0f64.to_bits()));
    assert!(exceeds(5e-324f64.to_bits(), (-0.0f64).to_bits()));
    assert!(exceeds((-0.0f64).to_bits(), (-5e-324f64).to_bits()));
}

#[test]
fn exceeds_is_false_with_nan_on_either_side() {
    let nan = f64::NAN.to_bits();
    assert!(!exceeds(nan, 0));
    assert!(!exceeds(0, nan));
    assert!(!exceeds(nan, nan));
    assert!(!exceeds(INFINITY_BITS + 1, 0));
    assert!(!exceeds(f64::INFINITY.to_bits(), nan));
}

#[test]
fn exceeds_on_given_patterns() {
    assert!(exceeds(0x4000_0000_0000_0000, 0x3ff0_0000_0000_0000));
    assert!(!exceeds(0x3ff0_0000_0000_0000, 0x4000_0000_0000_0000));
    assert!(!exceeds(0x3ff0_0000_0000_0000, 0x3ff0_0000_0000_0000));
    assert!(exceeds(0xbff0_0000_0000_0000, 0xc000_0000_0000_0000));
    assert!(exceeds(0, 0xbff0_0000_0000_0000));
}

#[test]
fn truncate_agrees_with_the_cast_where_it_fits() {
    for a in probes() {
        let fits = a.is_finite() && a >= -9223372036854775808.0 && a < 9223372036854775808.0;
        let expected = if fits { Some(a as i64) } else { None };
        assert_eq!(truncate(a.to_bits()), expected, "{a}");
    }
}

#[test]
fn truncate_rounds_toward_zero() {
    assert_eq!(truncate(80.96f64.to_bits()), Some(80));
    assert_eq!(truncate((-80.96f64).to_bits()), Some(-80));
    assert_eq!(truncate(0.999f64.to_bits()), Some(0));
    assert_eq!(truncate((-0.999f64).to_bits()), Some(0));
    assert_eq!(truncate(1.0f64.to_bits()), Some(1));
    assert_eq!(truncate((-1.0f64).to_bits()), Some(-1));
    assert_eq!(truncate(2.5f64.to_bits()), Some(2));
    assert_eq!(truncate((-2.5f64).to_bits()), Some(-2));
    assert_eq!(truncate(0x4054_2000_0000_0000), Some(80));
}

#[test]
fn truncate_of_zeros_and_subnormals_is_zero() {
    assert_eq!(truncate(0), Some(0));
    assert_eq!(truncate(SIGN_BIT), Some(0));
    assert_eq!(truncate(1), Some(0));
    assert_eq!(truncate(SIGN_BIT + 1), Some(0));
    assert_eq!(truncate(0x000f_ffff_ffff_ffff), Some(0));
}

#[test]
fn truncate_keeps_large_whole_numbers_exact() {
    assert_eq!(truncate(4503599627370496.0f64.to_bits()), Some(4503599627370496));
    assert_eq!(truncate(4503599627370497.0f64.to_bits()), Some(4503599627370497));
    assert_eq!(truncate(9007199254740992.0f64.to_bits()), Some(9007199254740992));
    assert_eq!(truncate(9223372036854774784.0f64.to_bits()), Some(9223372036854774784));
    assert_eq!(truncate((-9223372036854774784.0f64).to_bits()), Some(-9223372036854774784));
}

#[test]
fn truncate_at_the_ends_of_the_range() {
    assert_eq!(truncate((-9223372036854775808.0f64).to_bits()), Some(i64::MIN));
    assert_eq!(truncate(9223372036854775808.0f64.to_bits()), None);
    assert_eq!(truncate((-9223372036854777856.0f64).to_bits()), None);
    assert_eq!(truncate(f64::MAX.to_bits()), None);
    assert_eq!(truncate(f64::MIN.to_bits()), None);
}

#[test]
fn truncate_has_no_result_for_nan_and_infinities() {
    assert_eq!(truncate(f64::NAN.to_bits()), None);
    assert_eq!(truncate((-f64::NAN).to_bits()), None);
    assert_eq!(truncate(f64::INFINITY.to_bits()), None);
    assert_eq!(truncate(f64::NEG_INFINITY.to_bits()), None);
    assert_eq!(truncate(INFINITY_BITS), None);
    assert_eq!(truncate(INFINITY_BITS + 1), None);
}

#[test]
fn negate_flips_the_sign() {
    for a in probes() {
        assert_eq!(negate(a.to_bits()), (-a).to_bits(), "{a}");
    }
    assert_eq!(negate(0), SIGN_BIT);
    assert_eq!(negate(SIGN_BIT), 0);
    assert_eq!(negate(0x4024_0000_0000_0000), 0xc024_0000_0000_0000);
}
