use fractality::narrow::narrow_bits;
use fractality::shader_float::{
    encode_pair, encode_value, merge_bits, split_bits, EncodedFloat, EncodedVec2, PrecisionTier,
    Vec2Bits,
};

fn assert_roundtrip(v: f64) {
    let bits = v.to_bits();
    let (lo, hi) = split_bits(bits);
    let back = merge_bits(lo, hi);
    assert_eq!(back, bits, "bit pattern changed for {v:?}");
    assert_eq!(f64::from_bits(back).to_bits(), bits);
}

#[test]
fn split_merge_round_trip_ordinary_values() {
    for v in [
        0.0f64,
        -0.0,
        1.0,
        -1.0,
        2.0,
        0.1,
        -0.1,
        1.5e300,
        -2.5e-300,
        f64::MIN,
        f64::MAX,
        f64::MIN_POSITIVE,
        f64::EPSILON,
        f64::INFINITY,
        f64::NEG_INFINITY,
    ] {
        assert_roundtrip(v);
    }
}

#[test]
fn split_merge_round_trip_subnormals() {
    assert_roundtrip(5e-324); // smallest positive subnormal
    assert_roundtrip(-5e-324);
    assert_roundtrip(f64::from_bits(0x000f_ffff_ffff_ffff)); // largest subnormal
    assert_roundtrip(f64::MIN_POSITIVE / 2.0);
}

#[test]
fn split_merge_round_trip_nan_payloads() {
    // NaN payloads must come back byte-identical, not merely "a NaN".
    for bits in [
        f64::NAN.to_bits(),
        0x7ff8_0000_dead_beef_u64,
        0xfff8_1234_5678_9abc_u64,
        0x7ff0_0000_0000_0001_u64, // signalling NaN pattern
    ] {
        let (lo, hi) = split_bits(bits);
        assert_eq!(merge_bits(lo, hi), bits);
    }
}

#[test]
fn split_word_order_is_low_then_high() {
    let bits = 0x0123_4567_89ab_cdef_u64;
    let (lo, hi) = split_bits(bits);
    assert_eq!(lo, 0x89ab_cdef);
    assert_eq!(hi, 0x0123_4567);
    assert_eq!(merge_bits(lo, hi), bits);
}

fn assert_narrows_like_hardware(v: f64) {
    let got = narrow_bits(v.to_bits());
    let expected = (v as f32).to_bits();
    assert_eq!(got, expected, "narrowing {v:e} ({:#018x})", v.to_bits());
}

#[test]
fn narrowing_matches_ieee_on_edge_values() {
    for v in [
        0.0f64,
        -0.0,
        1.0,
        -1.0,
        1.1,
        -2.5,
        0.1,
        1.0 / 3.0,
        f64::MAX,
        f64::MIN,
        f64::MIN_POSITIVE,     // underflows to zero in 32 bits
        5e-324,                // smallest subnormal, underflows to zero
        1e-40,                 // lands on a 32-bit subnormal
        -1e-40,
        1.4e-45,               // near the smallest 32-bit subnormal
        1e-46,                 // below half the smallest subnormal
        1e40,                  // overflows to infinity
        -1e40,
        3.4028234663852886e38, // f32::MAX as f64
        3.4028235678e38,       // just above f32::MAX, still rounds down
        3.4028237e38,          // rounds over the top, to infinity
        f64::INFINITY,
        f64::NEG_INFINITY,
        f32::MAX as f64,
        f32::MIN_POSITIVE as f64,
    ] {
        assert_narrows_like_hardware(v);
    }
}

#[test]
fn narrowing_rounds_ties_to_even() {
    // 1 + 2^-24 sits exactly between 1.0 and the next 32-bit value:
    // the tie goes to the even mantissa, 1.0.
    let tie_down = f64::from_bits(0x3ff0_0000_1000_0000);
    assert_narrows_like_hardware(tie_down);
    assert_eq!(narrow_bits(tie_down.to_bits()), 1.0f32.to_bits());
    // 1 + 3 * 2^-24 sits exactly between the first and second values
    // above 1.0: the tie goes up, to the even mantissa.
    let tie_up = f64::from_bits(0x3ff0_0000_3000_0000);
    assert_narrows_like_hardware(tie_up);
    // just below and above a tie resolve by magnitude alone
    assert_narrows_like_hardware(f64::from_bits(0x3ff0_0000_0fff_ffff));
    assert_narrows_like_hardware(f64::from_bits(0x3ff0_0000_1000_0001));
}

#[test]
fn narrowing_matches_ieee_on_a_sweep() {
    // A deterministic sweep of bit patterns across all regimes.
    let mut x: u64 = 0x243f_6a88_85a3_08d3;
    for _ in 0..20000 {
        x = x.wrapping_mul(6364136223846793005).wrapping_add(1442695040888963407);
        let v = f64::from_bits(x);
        if v.is_nan() {
            continue;
        }
        assert_narrows_like_hardware(v);
    }
}

#[test]
fn narrowing_keeps_nan_nan() {
    for bits in [f64::NAN.to_bits(), 0x7ff8_0000_dead_beef_u64, 0xfff0_0000_0000_0001_u64] {
        let out = f32::from_bits(narrow_bits(bits));
        assert!(out.is_nan());
    }
}

#[test]
fn encode_value_single_tier_narrows() {
    let v = 1.1f64;
    match encode_value(PrecisionTier::Single, v.to_bits()) {
        EncodedFloat::Single(w) => assert_eq!(w, (v as f32).to_bits()),
        other => panic!("wrong encoding {other:?}"),
    }
}

#[test]
fn encode_value_double_tier_is_lossless() {
    let v = 0.1f64;
    match encode_value(PrecisionTier::Double, v.to_bits()) {
        EncodedFloat::Double(lo, hi) => {
            assert_eq!(f64::from_bits(merge_bits(lo, hi)), v);
            assert_eq!(merge_bits(lo, hi), v.to_bits());
        },
        other => panic!("wrong encoding {other:?}"),
    }
}

#[test]
fn encode_pair_double_tier_word_order() {
    let x = 1.25f64;
    let y = -3.5f64;
    let v = Vec2Bits { x: x.to_bits(), y: y.to_bits() };
    match encode_pair(PrecisionTier::Double, v) {
        EncodedVec2::Double(x_lo, x_hi, y_lo, y_hi) => {
            assert_eq!(merge_bits(x_lo, x_hi), x.to_bits());
            assert_eq!(merge_bits(y_lo, y_hi), y.to_bits());
        },
        other => panic!("wrong encoding {other:?}"),
    }
}

#[test]
fn encode_pair_single_tier_narrows_each_axis() {
    let v = Vec2Bits { x: 0.1f64.to_bits(), y: 2.5f64.to_bits() };
    match encode_pair(PrecisionTier::Single, v) {
        EncodedVec2::Single(x, y) => {
            assert_eq!(x, (0.1f64 as f32).to_bits());
            assert_eq!(y, (2.5f64 as f32).to_bits());
        },
        other => panic!("wrong encoding {other:?}"),
    }
}
