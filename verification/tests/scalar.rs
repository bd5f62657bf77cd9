use raytracer::scalar::{Scalar, INFINITY_BITS, ONE_BITS, SIGN_BIT};

fn s(x: f32) -> Scalar {
    Scalar::from_bits(x.to_bits())
}

/// Patterns of every kind: zeros, subnormals, ordinary numbers, the largest
/// finite ones, infinities and NaNs, with both signs.
fn notable_patterns() -> Vec<u32> {
    let mut v: Vec<u32> = vec![
        0x0000_0000,
        0x0000_0001,
        0x0000_0002,
        0x007f_ffff,
        0x0080_0000,
        0x0080_0001,
        0x3a83_126f,
        0x3f00_0000,
        0x3f7f_ffff,
        0x3f80_0000,
        0x3f80_0001,
        0x4000_0000,
        0x40a0_0000,
        0x7f7f_ffff,
        0x7f80_0000,
        0x7f80_0001,
        0x7fc0_0000,
        0x7fff_ffff,
    ];
    let n: usize = v.len();
    for k in 0..n {
        let p: u32 = v[k];
        v.push(p | 0x8000_0000);
    }
    v
}

/// A fixed stream of patterns that covers the whole range.
fn scattered_patterns(count: usize) -> Vec<u32> {
    let mut v: Vec<u32> = Vec::new();
    let mut state: u32 = 0x1234_5678;
    for _ in 0..count {
        state = state.wrapping_mul(1_664_525).wrapping_add(1_013_904_223);
        v.push(state);
    }
    v
}

#[test]
fn constants_are_the_patterns_of_the_numbers() {
    assert_eq!(Scalar::zero().to_bits(), 0.0f32.to_bits());
    assert_eq!(Scalar::one().to_bits(), 1.0f32.to_bits());
    assert_eq!(Scalar::infinity().to_bits(), f32::INFINITY.to_bits());
    assert_eq!(Scalar::default().to_bits(), f32::default().to_bits());
    assert_eq!(ONE_BITS, 1.0f32.to_bits());
    assert_eq!(INFINITY_BITS, f32::INFINITY.to_bits());
    assert_eq!(SIGN_BIT, (-0.0f32).to_bits());
}

#[test]
fn from_bits_and_to_bits_keep_the_pattern() {
    for p in notable_patterns() {
        assert_eq!(Scalar::from_bits(p).to_bits(), p);
        assert_eq!(Scalar::from_bits(p).bits, p);
    }
}

#[test]
fn classification_agrees_with_the_machine() {
    let mut all: Vec<u32> = notable_patterns();
    all.extend(scattered_patterns(20_000));
    for p in all {
        let f: f32 = f32::from_bits(p);
        let x: Scalar = Scalar::from_bits(p);
        assert_eq!(x.is_nan(), f.is_nan(), "is_nan of {:#x}", p);
        assert_eq!(x.is_infinite(), f.is_infinite(), "is_infinite of {:#x}", p);
        assert_eq!(x.is_sign_negative(), f.is_sign_negative(), "sign of {:#x}", p);
        assert_eq!(x.is_zero(), f == 0.0, "is_zero of {:#x}", p);
        assert_eq!(x.magnitude(), f.abs().to_bits(), "magnitude of {:#x}", p);
    }
}

#[test]
fn comparisons_agree_with_the_machine_on_notable_patterns() {
    let all: Vec<u32> = notable_patterns();
    for &p in &all {
        for &q in &all {
            let (f, g): (f32, f32) = (f32::from_bits(p), f32::from_bits(q));
            let (x, y): (Scalar, Scalar) = (Scalar::from_bits(p), Scalar::from_bits(q));
            assert_eq!(x.lt(y), f < g, "{:#x} < {:#x}", p, q);
            assert_eq!(x.le(y), f <= g, "{:#x} <= {:#x}", p, q);
            assert_eq!(x.gt(y), f > g, "{:#x} > {:#x}", p, q);
            assert_eq!(x.ge(y), f >= g, "{:#x} >= {:#x}", p, q);
            assert_eq!(x.same(y), f == g, "{:#x} == {:#x}", p, q);
        }
    }
}

#[test]
fn comparisons_agree_with_the_machine_on_scattered_patterns() {
    let all: Vec<u32> = scattered_patterns(40_000);
    for pair in all.chunks(2) {
        let (p, q): (u32, u32) = (pair[0], pair[1]);
        let (f, g): (f32, f32) = (f32::from_bits(p), f32::from_bits(q));
        let (x, y): (Scalar, Scalar) = (Scalar::from_bits(p), Scalar::from_bits(q));
        assert_eq!(x.lt(y), f < g, "{:#x} < {:#x}", p, q);
        assert_eq!(x.le(y), f <= g, "{:#x} <= {:#x}", p, q);
        assert_eq!(x.gt(y), f > g, "{:#x} > {:#x}", p, q);
        assert_eq!(x.ge(y), f >= g, "{:#x} >= {:#x}", p, q);
        assert_eq!(x.same(y), f == g, "{:#x} == {:#x}", p, q);
    }
}

#[test]
fn comparisons_agree_with_the_machine_on_neighbours() {
    for p in notable_patterns() {
        for q in [p.wrapping_sub(1), p, p.wrapping_add(1)] {
            let (f, g): (f32, f32) = (f32::from_bits(p), f32::from_bits(q));
            let (x, y): (Scalar, Scalar) = (Scalar::from_bits(p), Scalar::from_bits(q));
            assert_eq!(x.lt(y), f < g, "{:#x} < {:#x}", p, q);
            assert_eq!(x.le(y), f <= g, "{:#x} <= {:#x}", p, q);
            assert_eq!(x.same(y), f == g, "{:#x} == {:#x}", p, q);
        }
    }
}

#[test]
fn the_two_zeros_are_equal() {
    assert!(s(0.0).same(s(-0.0)));
    assert!(!s(-0.0).lt(s(0.0)));
    assert!(s(-0.0).le(s(0.0)));
    assert!(s(0.0).le(s(-0.0)));
}

#[test]
fn a_nan_is_unordered() {
    let nan: Scalar = s(f32::NAN);
    for p in notable_patterns() {
        let x: Scalar = Scalar::from_bits(p);
        assert!(!nan.lt(x));
        assert!(!nan.le(x));
        assert!(!nan.gt(x));
        assert!(!nan.ge(x));
        assert!(!nan.same(x));
        assert!(!x.lt(nan));
        assert!(!x.same(nan));
    }
}

#[test]
fn trichotomy_on_numbers() {
    let all: Vec<u32> = notable_patterns();
    for &p in &all {
        for &q in &all {
            let (x, y): (Scalar, Scalar) = (Scalar::from_bits(p), Scalar::from_bits(q));
            if x.is_nan() || y.is_nan() {
                continue;
            }
            let holds: [bool; 3] = [x.lt(y), x.same(y), x.gt(y)];
            assert_eq!(holds.iter().filter(|h| **h).count(), 1);
            assert_eq!(x.le(y), x.lt(y) || x.same(y));
        }
    }
}

#[test]
fn order_is_transitive_on_a_sample() {
    let all: Vec<u32> = notable_patterns();
    for &p in &all {
        for &q in &all {
            for &r in &all {
                let x: Scalar = Scalar::from_bits(p);
                let y: Scalar = Scalar::from_bits(q);
                let z: Scalar = Scalar::from_bits(r);
                if x.lt(y) && y.lt(z) {
                    assert!(x.lt(z));
                }
                if x.le(y) && y.le(z) {
                    assert!(x.le(z));
                }
            }
        }
    }
}

#[test]
fn neg_flips_the_sign_bit_only() {
    let mut all: Vec<u32> = notable_patterns();
    all.extend(scattered_patterns(5_000));
    for p in all {
        let x: Scalar = Scalar::from_bits(p);
        assert_eq!(x.neg().to_bits(), p ^ 0x8000_0000);
        assert_eq!(x.neg().to_bits(), (-f32::from_bits(p)).to_bits());
        assert_eq!(x.neg().neg().to_bits(), p);
    }
}

#[test]
fn neg_reverses_the_order() {
    assert!(s(1.0).lt(s(2.0)));
    assert!(s(2.0).neg().lt(s(1.0).neg()));
    assert!(s(-3.5).neg().same(s(3.5)));
}

#[test]
fn is_inside_excludes_both_ends() {
    let (low, high): (Scalar, Scalar) = (s(0.001), s(10.0));
    assert!(s(5.0).is_inside(low, high));
    assert!(s(0.0010001).is_inside(low, high));
    assert!(!s(0.001).is_inside(low, high));
    assert!(!s(10.0).is_inside(low, high));
    assert!(!s(0.0).is_inside(low, high));
    assert!(!s(11.0).is_inside(low, high));
    assert!(!s(f32::NAN).is_inside(low, high));
    assert!(!s(5.0).is_inside(s(f32::NAN), high));
    assert!(!s(5.0).is_inside(low, s(f32::NAN)));
}

#[test]
fn is_inside_an_unbounded_interval() {
    let (low, high): (Scalar, Scalar) = (s(0.001), Scalar::infinity());
    assert!(s(f32::MAX).is_inside(low, high));
    assert!(!s(f32::INFINITY).is_inside(low, high));
}

#[test]
fn clamp_unit_brings_numbers_into_the_unit_interval() {
    assert_eq!(s(0.3).clamp_unit().to_bits(), 0.3f32.to_bits());
    assert_eq!(s(1.0).clamp_unit().to_bits(), 1.0f32.to_bits());
    assert_eq!(s(0.0).clamp_unit().to_bits(), 0.0f32.to_bits());
    assert_eq!(s(1.5).clamp_unit().to_bits(), 1.0f32.to_bits());
    assert_eq!(s(f32::INFINITY).clamp_unit().to_bits(), 1.0f32.to_bits());
    assert_eq!(s(-0.5).clamp_unit().to_bits(), 0.0f32.to_bits());
    assert_eq!(s(f32::NEG_INFINITY).clamp_unit().to_bits(), 0.0f32.to_bits());
}

#[test]
fn clamp_unit_leaves_negative_zero_and_nan_alone() {
    assert_eq!(s(-0.0).clamp_unit().to_bits(), (-0.0f32).to_bits());
    assert!(s(f32::NAN).clamp_unit().is_nan());
    assert_eq!(Scalar::from_bits(0x7fc0_1234).clamp_unit().to_bits(), 0x7fc0_1234);
}

#[test]
fn clamp_unit_agrees_with_the_comparisons_of_the_machine() {
    let mut all: Vec<u32> = notable_patterns();
    all.extend(scattered_patterns(20_000));
    for p in all {
        let f: f32 = f32::from_bits(p);
        let expected: f32 = if f > 1.0 {
            1.0
        } else if f < 0.0 {
            0.0
        } else {
            f
        };
        assert_eq!(Scalar::from_bits(p).clamp_unit().to_bits(), expected.to_bits());
    }
}
