use fractality::fractal::{Fractal, TWO_BITS};
use fractality::material::{
    encode_complex_parameter, encode_fractal, encode_parameter, C_I_VALUE_INDEX, C_R_VALUE_INDEX,
    PIXEL_X_INDEX, PIXEL_Y_INDEX, P_I_VALUE_INDEX, P_R_VALUE_INDEX, Z_I_VALUE_INDEX,
    Z_R_VALUE_INDEX,
};
use fractality::parameters::{ComplexParameter, Parameter};
use fractality::render::{double_precision_supported, select_tier, DoublePrecisionSupported};
use fractality::shader_float::{merge_bits, EncodedFloat, PrecisionTier};

#[test]
fn index_table_is_fixed_literals() {
    assert_eq!(Z_R_VALUE_INDEX, 0);
    assert_eq!(Z_I_VALUE_INDEX, 1);
    assert_eq!(C_R_VALUE_INDEX, 2);
    assert_eq!(C_I_VALUE_INDEX, 3);
    assert_eq!(P_R_VALUE_INDEX, 4);
    assert_eq!(P_I_VALUE_INDEX, 5);
    assert_eq!(PIXEL_X_INDEX, 6);
    assert_eq!(PIXEL_Y_INDEX, 7);
}

#[test]
fn constant_binding_keeps_its_slot() {
    let bits = 1.5f64.to_bits();
    let enc = encode_parameter(PrecisionTier::Single, Parameter::Value(bits), 3);
    assert_eq!(enc.index, 3);
    assert_eq!(enc.value, EncodedFloat::Single((1.5f64 as f32).to_bits()));
}

#[test]
fn pixel_bindings_use_the_reserved_indices() {
    let x = encode_parameter(PrecisionTier::Single, Parameter::PixelX, 4);
    assert_eq!(x.index, PIXEL_X_INDEX);
    assert_eq!(x.value, EncodedFloat::Single(0.0f32.to_bits()));
    let y = encode_parameter(PrecisionTier::Double, Parameter::PixelY, 0);
    assert_eq!(y.index, PIXEL_Y_INDEX);
    assert_eq!(y.value, EncodedFloat::Double(0, 0));
}

#[test]
fn asymmetric_complex_parameter_is_encoded_as_given() {
    // Real part pixel-bound, imaginary part a constant: permitted and
    // encoded per component.
    let param = ComplexParameter {
        real: Parameter::PixelX,
        imaginary: Parameter::Value(0.3f64.to_bits()),
    };
    let enc = encode_complex_parameter(PrecisionTier::Double, param, C_R_VALUE_INDEX, C_I_VALUE_INDEX);
    assert_eq!(enc.real_index, PIXEL_X_INDEX);
    assert_eq!(enc.imag_index, C_I_VALUE_INDEX);
    match enc.imag_value {
        EncodedFloat::Double(lo, hi) => assert_eq!(merge_bits(lo, hi), 0.3f64.to_bits()),
        other => panic!("wrong encoding {other:?}"),
    }
}

#[test]
fn default_fractal_is_the_classic_view() {
    let f = Fractal::default();
    assert_eq!(f.iteration_count, 100);
    assert_eq!(f.scale, 2.0f64.to_bits());
    assert_eq!(f.scale, TWO_BITS);
    assert_eq!(f.escape_radius, 2.0f64.to_bits());
    assert_eq!(f64::from_bits(f.offset.x), 0.0);
    assert_eq!(f64::from_bits(f.offset.y), 0.0);
    assert_eq!(f.c, ComplexParameter { real: Parameter::PixelX, imaginary: Parameter::PixelY });
    assert_eq!(
        f.p,
        ComplexParameter {
            real: Parameter::Value(2.0f64.to_bits()),
            imaginary: Parameter::Value(0.0f64.to_bits()),
        }
    );
    assert_eq!(f.initial_z, ComplexParameter::default());
    assert!(!f.use_double_precision);
}

#[test]
fn encoding_is_idempotent() {
    let f = Fractal::default();
    for tier in [PrecisionTier::Single, PrecisionTier::Double] {
        let u1 = encode_fractal(&f, tier);
        let u2 = encode_fractal(&f, tier);
        assert_eq!(u1, u2);
    }
}

#[test]
fn encoded_default_uniform_layout() {
    let f = Fractal::default();
    let u = encode_fractal(&f, PrecisionTier::Double);
    assert_eq!(u.iteration_count, 100);
    match u.scale {
        EncodedFloat::Double(lo, hi) => assert_eq!(merge_bits(lo, hi), 2.0f64.to_bits()),
        other => panic!("wrong encoding {other:?}"),
    }
    assert_eq!(u.c.real_index, PIXEL_X_INDEX);
    assert_eq!(u.c.imag_index, PIXEL_Y_INDEX);
    assert_eq!(u.initial_z.real_index, Z_R_VALUE_INDEX);
    assert_eq!(u.initial_z.imag_index, Z_I_VALUE_INDEX);
    assert_eq!(u.p.real_index, P_R_VALUE_INDEX);
    assert_eq!(u.p.imag_index, P_I_VALUE_INDEX);
}

#[test]
fn variant_names() {
    assert_eq!(Parameter::Value(0).variant_str(), "Constant");
    assert_eq!(Parameter::PixelX.variant_str(), "X coordinate");
    assert_eq!(Parameter::PixelY.variant_str(), "Y coordinate");
    assert_eq!(Parameter::default(), Parameter::Value(0));
}

#[test]
fn tier_selection_honors_capability() {
    let yes = DoublePrecisionSupported(true);
    let no = DoublePrecisionSupported(false);
    assert_eq!(select_tier(true, yes), PrecisionTier::Double);
    // A request on unsupported hardware silently falls back.
    assert_eq!(select_tier(true, no), PrecisionTier::Single);
    assert_eq!(select_tier(false, yes), PrecisionTier::Single);
    assert_eq!(select_tier(false, no), PrecisionTier::Single);
}

#[test]
fn capability_needs_both_features() {
    assert!(double_precision_supported(true, true).0);
    assert!(!double_precision_supported(true, false).0);
    assert!(!double_precision_supported(false, true).0);
    assert!(!double_precision_supported(false, false).0);
}
