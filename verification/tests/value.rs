use raytracer::scalar::Scalar;
use raytracer::value::{HIDDEN_BIT, EXPONENT_OF_ONE, EXPONENT_OF_WHOLE, EXPONENT_PAST_U32};

fn s(x: f32) -> Scalar {
    Scalar::from_bits(x.to_bits())
}

#[test]
fn exponent_constants_are_those_of_the_format() {
    assert_eq!(HIDDEN_BIT, 1 << 23);
    assert_eq!(1.0f32.to_bits() >> 23, EXPONENT_OF_ONE);
    assert_eq!(8_388_608.0f32.to_bits() >> 23, EXPONENT_OF_WHOLE);
    assert_eq!(4_294_967_296.0f32.to_bits() >> 23, EXPONENT_PAST_U32);
}

#[test]
fn to_u32_drops_the_fraction() {
    assert_eq!(s(0.0).to_u32(), 0);
    assert_eq!(s(0.5).to_u32(), 0);
    assert_eq!(s(0.999_999_94).to_u32(), 0);
    assert_eq!(s(1.0).to_u32(), 1);
    assert_eq!(s(1.5).to_u32(), 1);
    assert_eq!(s(1.999_999_9).to_u32(), 1);
    assert_eq!(s(2.0).to_u32(), 2);
    assert_eq!(s(255.99).to_u32(), 255);
    assert_eq!(s(127.5).to_u32(), 127);
    assert_eq!(s(1234.5678).to_u32(), 1234);
}

#[test]
fn to_u32_of_whole_numbers() {
    assert_eq!(s(8_388_607.0).to_u32(), 8_388_607);
    assert_eq!(s(8_388_607.5).to_u32(), 8_388_607);
    assert_eq!(s(8_388_608.0).to_u32(), 8_388_608);
    assert_eq!(s(16_777_215.0).to_u32(), 16_777_215);
    assert_eq!(s(16_777_216.0).to_u32(), 16_777_216);
    assert_eq!(s(3_000_000_000.0).to_u32(), 3_000_000_000);
    assert_eq!(Scalar::from_bits(0x4f7f_ffff).to_u32(), 4_294_967_040);
}

#[test]
fn to_u32_saturates() {
    assert_eq!(s(4_294_967_296.0).to_u32(), u32::MAX);
    assert_eq!(s(1.0e20).to_u32(), u32::MAX);
    assert_eq!(s(f32::MAX).to_u32(), u32::MAX);
    assert_eq!(s(f32::INFINITY).to_u32(), u32::MAX);
}

#[test]
fn to_u32_of_negative_numbers_is_zero() {
    assert_eq!(s(-0.0).to_u32(), 0);
    assert_eq!(s(-0.5).to_u32(), 0);
    assert_eq!(s(-1.0).to_u32(), 0);
    assert_eq!(s(-1.0e20).to_u32(), 0);
    assert_eq!(s(f32::NEG_INFINITY).to_u32(), 0);
}

#[test]
fn to_u32_of_nan_is_zero() {
    assert_eq!(s(f32::NAN).to_u32(), 0);
    assert_eq!(Scalar::from_bits(0x7f80_0001).to_u32(), 0);
    assert_eq!(Scalar::from_bits(0xffff_ffff).to_u32(), 0);
}

#[test]
fn to_u32_of_tiny_numbers_is_zero() {
    assert_eq!(Scalar::from_bits(1).to_u32(), 0);
    assert_eq!(Scalar::from_bits(0x007f_ffff).to_u32(), 0);
    assert_eq!(Scalar::from_bits(0x0080_0000).to_u32(), 0);
    assert_eq!(s(1.0e-30).to_u32(), 0);
}

#[test]
fn to_u32_agrees_with_the_cast_at_every_exponent() {
    for exponent in 0u32..=255 {
        for fraction in [0u32, 1, 0x0040_0000, 0x0055_5555, 0x007f_fffe, 0x007f_ffff] {
            for sign in [0u32, 0x8000_0000] {
                let p: u32 = sign | (exponent << 23) | fraction;
                assert_eq!(Scalar::from_bits(p).to_u32(), f32::from_bits(p) as u32, "{:#x}", p);
            }
        }
    }
}

#[test]
fn to_u32_agrees_with_the_cast_on_scattered_patterns() {
    let mut state: u32 = 0x0bad_5eed;
    for _ in 0..100_000 {
        state = state.wrapping_mul(1_664_525).wrapping_add(1_013_904_223);
        assert_eq!(Scalar::from_bits(state).to_u32(), f32::from_bits(state) as u32, "{:#x}", state);
    }
}

#[test]
fn to_u32_agrees_with_the_cast_on_channel_values() {
    for k in 0u32..=2_560 {
        let channel: f32 = 255.99 * (k as f32 / 2_560.0).sqrt();
        assert_eq!(s(channel).to_u32(), channel as u32);
        assert!(s(channel).to_u32() <= 255);
    }
}
