use raster_core::color::{check_normalized, Color};
use raster_core::scalar::{
    Scalar, FULL_TURN_BITS, HALF_BITS, INFINITY_BITS, MAX_BITS, MINUS_ONE_BITS,
    NEARLY_ONE_HIGH_BITS, NEARLY_ONE_LOW_BITS, NEARLY_ZERO_BITS, ONE_BITS, ZERO_BITS,
};
use raster_core::shaders::gradient::DEGENERATE_THRESHOLD_BITS;
use tiny_skia_path::{NormalizedF32, Scalar as Nearly, SCALAR_NEARLY_ZERO};

fn n32(x: f32) -> Scalar {
    Scalar::from_bits(x.to_bits())
}

fn samples() -> Vec<f32> {
    let mut v = vec![
        0.0,
        -0.0,
        1.0,
        -1.0,
        0.5,
        -0.5,
        2.0,
        360.0,
        -360.0,
        1.0e-30,
        -1.0e-30,
        1.0e30,
        -1.0e30,
        f32::MIN_POSITIVE,
        -f32::MIN_POSITIVE,
        f32::MAX,
        f32::MIN,
        f32::EPSILON,
        f32::INFINITY,
        f32::NEG_INFINITY,
        f32::NAN,
        -f32::NAN,
        f32::from_bits(1),
        f32::from_bits(0x8000_0001),
        f32::from_bits(0x007F_FFFF),
        SCALAR_NEARLY_ZERO,
        -SCALAR_NEARLY_ZERO,
        1.0 / 32768.0,
        0.999,
        1.001,
        3.25,
        -7.75,
    ];
    let mut bits: u32 = 0x1234_5678;
    for _ in 0..200 {
        bits = bits.wrapping_mul(1_664_525).wrapping_add(1_013_904_223);
        v.push(f32::from_bits(bits));
    }
    v
}

#[test]
fn constants_are_the_bits_of_their_numbers() {
    assert_eq!(ZERO_BITS, 0.0f32.to_bits());
    assert_eq!(HALF_BITS, 0.5f32.to_bits());
    assert_eq!(ONE_BITS, 1.0f32.to_bits());
    assert_eq!(MINUS_ONE_BITS, (-1.0f32).to_bits());
    assert_eq!(FULL_TURN_BITS, 360.0f32.to_bits());
    assert_eq!(NEARLY_ZERO_BITS, SCALAR_NEARLY_ZERO.to_bits());
    assert_eq!(NEARLY_ONE_LOW_BITS, (1.0f32 - SCALAR_NEARLY_ZERO).to_bits());
    assert_eq!(NEARLY_ONE_HIGH_BITS, (1.0f32 + SCALAR_NEARLY_ZERO).to_bits());
    assert_eq!(INFINITY_BITS, f32::INFINITY.to_bits());
    assert_eq!(MAX_BITS, f32::MAX.to_bits());
    assert_eq!(DEGENERATE_THRESHOLD_BITS, (1.0f32 / (1 << 15) as f32).to_bits());
    assert_eq!(Scalar::zero().to_bits(), 0.0f32.to_bits());
    assert_eq!(Scalar::half().to_bits(), 0.5f32.to_bits());
    assert_eq!(Scalar::one().to_bits(), 1.0f32.to_bits());
    assert_eq!(Scalar::minus_one().to_bits(), (-1.0f32).to_bits());
}

#[test]
fn classes_agree_with_the_numbers() {
    for x in samples() {
        let s = n32(x);
        assert_eq!(s.is_nan(), x.is_nan(), "{x:?}");
        assert_eq!(s.is_finite(), x.is_finite(), "{x:?}");
        assert_eq!(s.is_zero(), x == 0.0, "{x:?}");
        assert_eq!(s.is_sign_negative(), x.is_sign_negative(), "{x:?}");
    }
}

#[test]
fn order_agrees_with_the_numbers() {
    let all = samples();
    for &a in &all {
        for &b in &all {
            let (x, y) = (n32(a), n32(b));
            assert_eq!(x.lt(y), a < b, "{a:?} < {b:?}");
            assert_eq!(x.le(y), a <= b, "{a:?} <= {b:?}");
            assert_eq!(x.gt(y), a > b, "{a:?} > {b:?}");
            assert_eq!(x.ge(y), a >= b, "{a:?} >= {b:?}");
            assert_eq!(x.is_same(y), a == b, "{a:?} == {b:?}");
            assert_eq!(x == y, a == b, "{a:?} == {b:?}");
        }
    }
}

#[test]
fn negation_and_absolute_value_keep_the_other_bits() {
    for x in samples() {
        assert_eq!(n32(x).neg().to_bits(), (-x).to_bits(), "{x:?}");
        assert_eq!(n32(x).abs().to_bits(), x.abs().to_bits(), "{x:?}");
    }
    assert_eq!(n32(1.5).neg().to_bits(), (-1.5f32).to_bits());
    assert_eq!(n32(-1.5).abs().to_bits(), 1.5f32.to_bits());
}

#[test]
fn larger_and_smaller_agree_with_the_numbers() {
    let all = samples();
    for &a in &all {
        for &b in &all {
            let hi = f32::from_bits(n32(a).max(n32(b)).to_bits());
            let lo = f32::from_bits(n32(a).min(n32(b)).to_bits());
            let (want_hi, want_lo) = (a.max(b), a.min(b));
            if want_hi.is_nan() {
                assert!(hi.is_nan());
                assert!(lo.is_nan());
            } else {
                assert_eq!(hi, want_hi, "max {a:?} {b:?}");
                assert_eq!(lo, want_lo, "min {a:?} {b:?}");
            }
        }
    }
    assert_eq!(n32(2.0).max(n32(3.0)).to_bits(), 3.0f32.to_bits());
    assert_eq!(n32(2.0).min(n32(3.0)).to_bits(), 2.0f32.to_bits());
    assert_eq!(n32(f32::NAN).max(n32(3.0)).to_bits(), 3.0f32.to_bits());
    assert_eq!(n32(2.0).min(n32(f32::NAN)).to_bits(), 2.0f32.to_bits());
}

#[test]
fn nearly_zero_agrees_with_the_tolerance_test() {
    let all = samples();
    for &x in &all {
        assert_eq!(n32(x).is_nearly_zero(), x.is_nearly_zero(), "{x:?}");
        for &t in &[0.0f32, 1.0 / 32768.0, SCALAR_NEARLY_ZERO, 1.0, f32::INFINITY] {
            assert_eq!(
                n32(x).is_nearly_zero_within_tolerance(n32(t)),
                x.is_nearly_zero_within_tolerance(t),
                "{x:?} within {t:?}"
            );
        }
    }
    assert!(n32(SCALAR_NEARLY_ZERO).is_nearly_zero());
    assert!(n32(-SCALAR_NEARLY_ZERO).is_nearly_zero());
    assert!(!n32(f32::from_bits(NEARLY_ZERO_BITS + 1)).is_nearly_zero());
    assert!(!n32(f32::NAN).is_nearly_zero());
}

#[test]
fn nearly_one_agrees_with_the_rounded_difference() {
    let mut candidates = samples();
    for bits in (NEARLY_ONE_LOW_BITS - 64)..(NEARLY_ONE_LOW_BITS + 64) {
        candidates.push(f32::from_bits(bits));
    }
    for bits in (NEARLY_ONE_HIGH_BITS - 64)..(NEARLY_ONE_HIGH_BITS + 64) {
        candidates.push(f32::from_bits(bits));
    }
    for bits in (ONE_BITS - 64)..(ONE_BITS + 64) {
        candidates.push(f32::from_bits(bits));
    }
    let mut bits = NEARLY_ONE_LOW_BITS - 5000;
    while bits < NEARLY_ONE_HIGH_BITS + 5000 {
        candidates.push(f32::from_bits(bits));
        candidates.push(-f32::from_bits(bits));
        bits += 37;
    }
    for x in candidates {
        assert_eq!(n32(x).is_nearly_one(), (1.0 - x).is_nearly_zero(), "{x:?}");
        assert_eq!(n32(x).is_nearly_one(), (x - 1.0).is_nearly_zero(), "{x:?}");
    }
    assert!(n32(1.0).is_nearly_one());
    assert!(n32(1.0 + SCALAR_NEARLY_ZERO).is_nearly_one());
    assert!(n32(1.0 - SCALAR_NEARLY_ZERO).is_nearly_one());
    assert!(!n32(f32::from_bits(NEARLY_ONE_HIGH_BITS + 1)).is_nearly_one());
    assert!(!n32(f32::from_bits(NEARLY_ONE_LOW_BITS - 1)).is_nearly_one());
    assert!(!n32(-1.0).is_nearly_one());
}

#[test]
fn clamping_agrees_with_normalized_numbers() {
    for x in samples() {
        let got = f32::from_bits(n32(x).clamp01().to_bits());
        assert_eq!(got, NormalizedF32::new_clamped(x).get(), "{x:?}");
    }
    assert_eq!(n32(-0.5).clamp01().to_bits(), 0.0f32.to_bits());
    assert_eq!(n32(0.5).clamp01().to_bits(), 0.5f32.to_bits());
    assert_eq!(n32(1.5).clamp01().to_bits(), 1.0f32.to_bits());
    assert_eq!(n32(f32::NAN).clamp01().to_bits(), 0.0f32.to_bits());
    assert_eq!(n32(f32::INFINITY).clamp01().to_bits(), 0.0f32.to_bits());
    assert_eq!(n32(f32::NEG_INFINITY).clamp01().to_bits(), 0.0f32.to_bits());
}

#[test]
fn colors_take_components_of_the_unit_range_only() {
    let ok = Color::from_rgba(n32(0.0), n32(0.25), n32(1.0), n32(0.5));
    assert!(ok.is_some());
    let color = ok.unwrap();
    assert_eq!(color.g.to_bits(), 0.25f32.to_bits());
    assert!(!color.is_opaque());
    assert!(Color::from_rgba(n32(0.0), n32(0.0), n32(0.0), n32(1.0)).unwrap().is_opaque());
    assert!(Color::from_rgba(n32(1.5), n32(0.0), n32(0.0), n32(1.0)).is_none());
    assert!(Color::from_rgba(n32(0.0), n32(-0.1), n32(0.0), n32(1.0)).is_none());
    assert!(Color::from_rgba(n32(0.0), n32(0.0), n32(f32::NAN), n32(1.0)).is_none());
    assert!(Color::from_rgba(n32(0.0), n32(0.0), n32(0.0), n32(f32::INFINITY)).is_none());
    for x in samples() {
        assert_eq!(check_normalized(n32(x)), x.is_finite() && (0.0..=1.0).contains(&x), "{x:?}");
    }
}
