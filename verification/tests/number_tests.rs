use ocr_service::number::Number;

fn cast_of(value: f64) -> i32 {
    value as i32
}

fn converted(value: f64) -> i32 {
    Number::from_bits(value.to_bits()).to_i32()
}

#[test]
fn to_i32_rounds_toward_zero() {
    assert_eq!(converted(12.7), 12);
    assert_eq!(converted(-12.7), -12);
    assert_eq!(converted(0.999), 0);
    assert_eq!(converted(-0.999), 0);
    assert_eq!(converted(1.0), 1);
    assert_eq!(converted(-1.0), -1);
    assert_eq!(converted(12.5), 12);
}

#[test]
fn to_i32_of_zero_is_zero() {
    assert_eq!(converted(0.0), 0);
    assert_eq!(converted(-0.0), 0);
    assert_eq!(Number::zero().to_i32(), 0);
    assert_eq!(Number::zero().to_bits(), 0.0f64.to_bits());
}

#[test]
fn to_i32_saturates() {
    assert_eq!(converted(2147483647.0), i32::MAX);
    assert_eq!(converted(2147483647.5), i32::MAX);
    assert_eq!(converted(2147483648.0), i32::MAX);
    assert_eq!(converted(1e300), i32::MAX);
    assert_eq!(converted(-2147483648.0), i32::MIN);
    assert_eq!(converted(-2147483648.5), i32::MIN);
    assert_eq!(converted(-2147483649.0), i32::MIN);
    assert_eq!(converted(-1e300), i32::MIN);
    assert_eq!(converted(2147483646.9), 2147483646);
    assert_eq!(converted(-2147483647.9), -2147483647);
}

#[test]
fn to_i32_of_what_is_no_number() {
    assert_eq!(converted(f64::NAN), 0);
    assert_eq!(Number::from_bits(0xfff8_0000_0000_0001).to_i32(), 0);
    assert_eq!(Number::from_bits(0x7ff0_0000_0000_0001).to_i32(), 0);
    assert_eq!(converted(f64::INFINITY), i32::MAX);
    assert_eq!(converted(f64::NEG_INFINITY), i32::MIN);
}

#[test]
fn to_i32_of_tiny_values_is_zero() {
    assert_eq!(converted(f64::MIN_POSITIVE), 0);
    assert_eq!(Number::from_bits(1).to_i32(), 0);
    assert_eq!(converted(-f64::MIN_POSITIVE), 0);
    assert_eq!(converted(1e-300), 0);
}

#[test]
fn to_i32_agrees_with_the_cast_on_chosen_values() {
    let values = [
        0.0, -0.0, 0.5, -0.5, 1.0, 1.5, 2.0, 3.999999, 255.0, 256.5, 65535.9, 16777216.0,
        16777217.0, 1073741824.0, 2147483520.0, 2147483647.0, 2147483648.0, 4294967296.0,
        4503599627370496.0, 9007199254740992.0, 1e18, 1e19, 1e308, f64::MAX, f64::MIN,
        f64::EPSILON, f64::MIN_POSITIVE, f64::NAN, f64::INFINITY, f64::NEG_INFINITY,
    ];
    for value in values {
        assert_eq!(converted(value), cast_of(value), "value {}", value);
        assert_eq!(converted(-value), cast_of(-value), "value {}", -value);
    }
}

#[test]
fn to_i32_agrees_with_the_cast_on_many_patterns() {
    let mut state: u64 = 0x9e37_79b9_7f4a_7c15;
    for _ in 0..200_000 {
        state = state.wrapping_mul(6364136223846793005).wrapping_add(1442695040888963407);
        let bits = state ^ (state >> 29);
        let value = f64::from_bits(bits);
        assert_eq!(Number::from_bits(bits).to_i32(), cast_of(value), "bits {:#x}", bits);
    }
}

#[test]
fn to_i32_agrees_with_the_cast_around_every_exponent() {
    for exponent in 0u64..2048 {
        for fraction in [0u64, 1, 0x8_0000_0000_0000, 0xf_ffff_ffff_ffff, 0x5_5555_5555_5555] {
            for sign in [0u64, 1] {
                let bits = (sign << 63) | (exponent << 52) | fraction;
                let value = f64::from_bits(bits);
                assert_eq!(Number::from_bits(bits).to_i32(), cast_of(value), "bits {:#x}", bits);
            }
        }
    }
}

#[test]
fn is_finite_agrees_with_the_float() {
    for value in [0.0, -1.5, 1e308, f64::MIN_POSITIVE, f64::NAN, f64::INFINITY, f64::NEG_INFINITY]
    {
        assert_eq!(Number::from_bits(value.to_bits()).is_finite(), value.is_finite());
    }
    assert!(!Number::from_bits(0x7ff0_0000_0000_0000).is_finite());
    assert!(Number::from_bits(0x7fef_ffff_ffff_ffff).is_finite());
}

#[test]
fn bits_go_in_and_out_unchanged() {
    let n = Number::from_bits(0x4029_0000_0000_0000);
    assert_eq!(n.to_bits(), 0x4029_0000_0000_0000);
    assert_eq!(n.to_bits(), 12.5f64.to_bits());
}
