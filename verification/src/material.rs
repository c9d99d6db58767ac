//! Encoding a [`Fractal`] into the evaluator-facing uniform record.
//!
//! Every scalar sent to the evaluator carries a fixed slot index naming
//! its semantic role: one constant slot per (complex parameter,
//! component) pair, plus two globally reserved indices meaning
//! "substitute the pixel's x coordinate" and "substitute the pixel's y
//! coordinate".  The index table is a set of fixed literals shared with
//! the evaluator; it never changes within a build.

use vstd::prelude::*;

use crate::fractal::Fractal;
use crate::parameters::{ComplexParameter, Parameter};
use crate::shader_float::{
    encode_pair, encode_value, encoded_float, encoded_vec2, EncodedFloat, EncodedVec2,
    PrecisionTier,
};

verus! {

/// Constant slot of the real component of the initial z.
pub const Z_R_VALUE_INDEX: u32 = 0;

/// Constant slot of the imaginary component of the initial z.
pub const Z_I_VALUE_INDEX: u32 = 1;

/// Constant slot of the real component of c.
pub const C_R_VALUE_INDEX: u32 = 2;

/// Constant slot of the imaginary component of c.
pub const C_I_VALUE_INDEX: u32 = 3;

/// Constant slot of the real component of the exponent p.
pub const P_R_VALUE_INDEX: u32 = 4;

/// Constant slot of the imaginary component of the exponent p.
pub const P_I_VALUE_INDEX: u32 = 5;

/// Reserved index meaning "substitute the pixel's x coordinate";
/// recognized in any field of the payload.
pub const PIXEL_X_INDEX: u32 = 6;

/// Reserved index meaning "substitute the pixel's y coordinate";
/// recognized in any field of the payload.
pub const PIXEL_Y_INDEX: u32 = 7;

/// One encoded scalar binding: a value payload and the slot index that
/// names its role.
#[derive(Debug, Clone, Copy, PartialEq, Eq, Structural)]
pub struct EncodedParameter {
    pub value: EncodedFloat,
    pub index: u32,
}

/// The wire form of one complex parameter: both components encoded
/// independently.
#[derive(Debug, Clone, Copy, PartialEq, Eq, Structural)]
pub struct EncodedComplexParameter {
    pub real_value: EncodedFloat,
    pub real_index: u32,
    pub imag_value: EncodedFloat,
    pub imag_index: u32,
}

/// The complete evaluator-facing uniform record for one frame.
#[derive(Debug, Clone, Copy, PartialEq, Eq, Structural)]
pub struct FractalUniform {
    pub iteration_count: u32,
    pub scale: EncodedFloat,
    pub offset: EncodedVec2,
    pub initial_z: EncodedComplexParameter,
    pub c: EncodedComplexParameter,
    pub p: EncodedComplexParameter,
    pub escape_radius: EncodedFloat,
}

/// The encoding of one scalar binding: a constant carries its own value
/// under the given constant slot, a pixel-bound component carries a zero
/// payload under the matching reserved pixel index.
pub open spec fn encoded_parameter(
    tier: PrecisionTier,
    param: Parameter,
    value_index: u32,
) -> EncodedParameter {
    match param {
        Parameter::Value(bits) => EncodedParameter {
            value: encoded_float(tier, bits),
            index: value_index,
        },
        Parameter::PixelX => EncodedParameter {
            value: encoded_float(tier, 0),
            index: PIXEL_X_INDEX,
        },
        Parameter::PixelY => EncodedParameter {
            value: encoded_float(tier, 0),
            index: PIXEL_Y_INDEX,
        },
    }
}

/// The encoding of one complex parameter under its two constant slots.
pub open spec fn encoded_complex_parameter(
    tier: PrecisionTier,
    param: ComplexParameter,
    real_index: u32,
    imag_index: u32,
) -> EncodedComplexParameter {
    let re = encoded_parameter(tier, param.real, real_index);
    let im = encoded_parameter(tier, param.imaginary, imag_index);
    EncodedComplexParameter {
        real_value: re.value,
        real_index: re.index,
        imag_value: im.value,
        imag_index: im.index,
    }
}

/// The full uniform record encoded from a fractal configuration.
pub open spec fn encoded_fractal(fractal: Fractal, tier: PrecisionTier) -> FractalUniform {
    FractalUniform {
        iteration_count: fractal.iteration_count,
        scale: encoded_float(tier, fractal.scale),
        offset: encoded_vec2(tier, fractal.offset),
        initial_z: encoded_complex_parameter(
            tier,
            fractal.initial_z,
            Z_R_VALUE_INDEX,
            Z_I_VALUE_INDEX,
        ),
        c: encoded_complex_parameter(tier, fractal.c, C_R_VALUE_INDEX, C_I_VALUE_INDEX),
        p: encoded_complex_parameter(tier, fractal.p, P_R_VALUE_INDEX, P_I_VALUE_INDEX),
        escape_radius: encoded_float(tier, fractal.escape_radius),
    }
}

/// Encodes one scalar binding for the active tier and slot.
pub fn encode_parameter(tier: PrecisionTier, param: Parameter, value_index: u32) -> (r:
    EncodedParameter)
    ensures
        r == encoded_parameter(tier, param, value_index),
{
    match param {
        Parameter::Value(bits) => EncodedParameter {
            value: encode_value(tier, bits),
            index: value_index,
        },
        Parameter::PixelX => EncodedParameter {
            value: encode_value(tier, 0),
            index: PIXEL_X_INDEX,
        },
        Parameter::PixelY => EncodedParameter {
            value: encode_value(tier, 0),
            index: PIXEL_Y_INDEX,
        },
    }
}

/// Encodes both components of one complex parameter.
pub fn encode_complex_parameter(
    tier: PrecisionTier,
    param: ComplexParameter,
    real_index: u32,
    imag_index: u32,
) -> (r: EncodedComplexParameter)
    ensures
        r == encoded_complex_parameter(tier, param, real_index, imag_index),
{
    let re = encode_parameter(tier, param.real, real_index);
    let im = encode_parameter(tier, param.imaginary, imag_index);
    EncodedComplexParameter {
        real_value: re.value,
        real_index: re.index,
        imag_value: im.value,
        imag_index: im.index,
    }
}

/// Encodes a whole fractal configuration into the uniform record the
/// evaluator consumes, with every slot index drawn from the fixed table.
pub fn encode_fractal(fractal: &Fractal, tier: PrecisionTier) -> (r: FractalUniform)
    ensures
        r == encoded_fractal(*fractal, tier),
{
    FractalUniform {
        iteration_count: fractal.iteration_count,
        scale: encode_value(tier, fractal.scale),
        offset: encode_pair(tier, fractal.offset),
        initial_z: encode_complex_parameter(
            tier,
            fractal.initial_z,
            Z_R_VALUE_INDEX,
            Z_I_VALUE_INDEX,
        ),
        c: encode_complex_parameter(tier, fractal.c, C_R_VALUE_INDEX, C_I_VALUE_INDEX),
        p: encode_complex_parameter(tier, fractal.p, P_R_VALUE_INDEX, P_I_VALUE_INDEX),
        escape_radius: encode_value(tier, fractal.escape_radius),
    }
}

/// Re-encoding is idempotent: any two encodings of the same
/// configuration in the same tier are one and the same record, so a
/// change-driven encoder may skip frames freely.
pub proof fn lemma_encode_idempotent(
    fractal: Fractal,
    tier: PrecisionTier,
    u1: FractalUniform,
    u2: FractalUniform,
)
    requires
        u1 == encoded_fractal(fractal, tier),
        u2 == encoded_fractal(fractal, tier),
    ensures
        u1 == u2,
{
}

} // verus!
