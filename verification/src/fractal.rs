//! The user-editable fractal configuration.
//!
//! One [`Fractal`] value holds everything the evaluator needs for the
//! iteration z -> z^p + c: the iteration budget, the escape radius, the
//! view transform (scale and offset) and the three complex parameters.
//! All 64-bit real values are carried as IEEE-754 bit patterns.

use vstd::prelude::*;

use crate::parameters::{ComplexParameter, Parameter};
use crate::shader_float::Vec2Bits;

verus! {

/// IEEE-754 bit pattern of the 64-bit value 2.0.
pub const TWO_BITS: u64 = 0x4000_0000_0000_0000;

/// The mutable fractal configuration: created once with defaults, then
/// edited by the view transform and by direct user input, and re-encoded
/// for the evaluator whenever it changed.
#[derive(Debug, Clone, Copy, PartialEq, Eq, Structural)]
pub struct Fractal {
    pub iteration_count: u32,
    /// View half-extent in world units (bit pattern).
    pub scale: u64,
    /// Escape radius for the iteration (bit pattern).
    pub escape_radius: u64,
    /// View center in world units (bit patterns per axis).
    pub offset: Vec2Bits,
    pub initial_z: ComplexParameter,
    pub c: ComplexParameter,
    pub p: ComplexParameter,
    pub use_double_precision: bool,
}

/// The startup configuration: the classic Mandelbrot view, with c bound to
/// the pixel coordinates, exponent 2 and initial z equal to zero.
pub open spec fn default_fractal() -> Fractal {
    Fractal {
        iteration_count: 100,
        scale: TWO_BITS,
        escape_radius: TWO_BITS,
        offset: Vec2Bits { x: 0, y: 0 },
        initial_z: ComplexParameter { real: Parameter::Value(0), imaginary: Parameter::Value(0) },
        c: ComplexParameter { real: Parameter::PixelX, imaginary: Parameter::PixelY },
        p: ComplexParameter { real: Parameter::Value(TWO_BITS), imaginary: Parameter::Value(0) },
        use_double_precision: false,
    }
}

impl Default for Fractal {
    fn default() -> (r: Self)
        ensures
            r == default_fractal(),
    {
        Fractal {
            iteration_count: 100,
            scale: TWO_BITS,
            escape_radius: TWO_BITS,
            offset: Vec2Bits { x: 0, y: 0 },
            initial_z: ComplexParameter {
                real: Parameter::Value(0),
                imaginary: Parameter::Value(0),
            },
            c: ComplexParameter { real: Parameter::PixelX, imaginary: Parameter::PixelY },
            p: ComplexParameter {
                real: Parameter::Value(TWO_BITS),
                imaginary: Parameter::Value(0),
            },
            use_double_precision: false,
        }
    }
}

} // verus!
