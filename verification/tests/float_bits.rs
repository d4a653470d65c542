use unit_sim::float_bits::{gt, is_positive, to_u32};

const SAMPLES: [f32; 40] = [
    0.0,
    -0.0,
    1.0e-45,
    1.1754942e-38,
    1.1754944e-38,
    0.25,
    0.5,
    0.99999994,
    1.0,
    1.5,
    1.9999999,
    2.0,
    50.0,
    80.0,
    80.99999,
    511.5,
    8388607.5,
    8388608.0,
    16777215.0,
    16777216.0,
    33554432.0,
    2147483648.0,
    4294967040.0,
    4294967296.0,
    8589934592.0,
    3.4028235e38,
    f32::INFINITY,
    f32::NEG_INFINITY,
    f32::NAN,
    -1.0e-45,
    -0.5,
    -1.0,
    -50.0,
    -4294967296.0,
    -3.4028235e38,
    3.9999998,
    1234.5678,
    65535.996,
    1.0e10,
    7.0e9,
];

#[test]
fn to_u32_agrees_with_the_cast() {
    for x in SAMPLES {
        assert_eq!(to_u32(x.to_bits()), x as u32, "{x}");
    }
}

#[test]
fn is_positive_agrees_with_the_comparison() {
    for x in SAMPLES {
        assert_eq!(is_positive(x.to_bits()), x > 0.0, "{x}");
    }
}

#[test]
fn to_u32_rounds_towards_zero() {
    assert_eq!(to_u32(50.0f32.to_bits()), 50);
    assert_eq!(to_u32(80.99999f32.to_bits()), 80);
    assert_eq!(to_u32(0.99999994f32.to_bits()), 0);
    assert_eq!(to_u32(1.0f32.to_bits()), 1);
    assert_eq!(to_u32(16777215.0f32.to_bits()), 16777215);
}

#[test]
fn to_u32_saturates() {
    assert_eq!(to_u32(4294967040.0f32.to_bits()), 4294967040);
    assert_eq!(to_u32(4294967296.0f32.to_bits()), u32::MAX);
    assert_eq!(to_u32(f32::INFINITY.to_bits()), u32::MAX);
    assert_eq!(to_u32((-1.0f32).to_bits()), 0);
    assert_eq!(to_u32(f32::NEG_INFINITY.to_bits()), 0);
    assert_eq!(to_u32(f32::NAN.to_bits()), 0);
    // a pattern that is not a number, with the sign bit set
    assert_eq!(to_u32(0xffc0_0001), 0);
    assert_eq!(to_u32(0x7f80_0001), 0);
}

#[test]
fn zero_is_not_positive() {
    assert!(!is_positive(0));
    assert!(!is_positive(0x8000_0000));
    assert!(is_positive(1));
    assert!(is_positive(0x7f80_0000));
    assert!(!is_positive(0x7f80_0001));
    assert!(!is_positive(0x7fc0_0000));
    assert!(!is_positive(0x8000_0001));
}

#[test]
fn to_u32_agrees_with_the_cast_on_a_sweep_of_patterns() {
    let mut bits: u32 = 0;
    loop {
        let x = f32::from_bits(bits);
        assert_eq!(to_u32(bits), x as u32, "{bits:#x}");
        assert_eq!(is_positive(bits), x > 0.0, "{bits:#x}");
        match bits.checked_add(0x0001_2345) {
            Some(next) => bits = next,
            None => break,
        }
    }
}

#[test]
fn gt_agrees_with_the_comparison() {
    for a in SAMPLES {
        for b in SAMPLES {
            assert_eq!(gt(a.to_bits(), b.to_bits()), a > b, "{a} > {b}");
        }
    }
}

#[test]
fn gt_on_neighbouring_patterns() {
    // across the border between the smallest normal number and those below it
    assert!(gt(0x0080_0000, 0x007f_ffff));
    assert!(!gt(0x007f_ffff, 0x0080_0000));
    // across a change of exponent
    assert!(gt(0x3f80_0000, 0x3f7f_ffff));
    assert!(gt(0x7f80_0000, 0x7f7f_ffff));
    // negative numbers order the other way round
    assert!(gt(0xbf7f_ffff, 0xbf80_0000));
    assert!(!gt(0xbf80_0000, 0xbf7f_ffff));
    // the two zeros are equal
    assert!(!gt(0, 0x8000_0000));
    assert!(!gt(0x8000_0000, 0));
    assert!(gt(1, 0x8000_0000));
    assert!(gt(0, 0x8000_0001));
    // nothing is greater or less than what is not a number
    assert!(!gt(0x7fc0_0000, 0));
    assert!(!gt(0x7f80_0000, 0x7fc0_0000));
    assert!(!gt(0xffc0_0000, 0xff80_0000));
}

#[test]
fn gt_agrees_with_the_comparison_on_a_sweep_of_patterns() {
    let mut a: u32 = 0;
    loop {
        let mut b: u32 = 0;
        loop {
            assert_eq!(gt(a, b), f32::from_bits(a) > f32::from_bits(b), "{a:#x} > {b:#x}");
            match b.checked_add(0x0234_5671) {
                Some(next) => b = next,
                None => break,
            }
        }
        match a.checked_add(0x0123_4567) {
            Some(next) => a = next,
            None => break,
        }
    }
}
