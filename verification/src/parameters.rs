//! The parameter binding model.
//!
//! A [`Parameter`] describes how the evaluator obtains one scalar for each
//! pixel: either a fixed constant, or the pixel's own screen-space x or y
//! coordinate.  A [`ComplexParameter`] pairs two independent bindings for
//! the real and imaginary components of one complex quantity; the two
//! components may be bound differently on purpose.
//!
//! Constants are carried as the IEEE-754 bit patterns of the 64-bit values
//! they stand for.

use vstd::prelude::*;

verus! {

/// One scalar binding: a fixed constant (held as an IEEE-754 bit pattern)
/// or one of the two screen-space coordinate axes.
#[derive(Debug, Clone, Copy, PartialEq, Eq, Structural)]
pub enum Parameter {
    Value(u64),
    PixelX,
    PixelY,
}

impl Parameter {
    /// Human-readable name of the binding kind.
    pub fn variant_str(self) -> (r: &'static str)
        ensures
            self is Value ==> r@ == "Constant"@,
            self is PixelX ==> r@ == "X coordinate"@,
            self is PixelY ==> r@ == "Y coordinate"@,
    {
        match self {
            Parameter::Value(_) => "Constant",
            Parameter::PixelX => "X coordinate",
            Parameter::PixelY => "Y coordinate",
        }
    }
}

impl Default for Parameter {
    /// The default binding is the constant zero.
    fn default() -> (r: Self)
        ensures
            r == Parameter::Value(0u64),
    {
        Parameter::Value(0)
    }
}

/// Two independent bindings for the real and imaginary components of one
/// complex quantity.
#[derive(Debug, Clone, Copy, PartialEq, Eq, Structural)]
pub struct ComplexParameter {
    pub real: Parameter,
    pub imaginary: Parameter,
}

impl Default for ComplexParameter {
    /// Both components default to the constant zero.
    fn default() -> (r: Self)
        ensures
            r == (ComplexParameter { real: Parameter::Value(0u64), imaginary: Parameter::Value(0u64) }),
    {
        ComplexParameter { real: Parameter::Value(0), imaginary: Parameter::Value(0) }
    }
}

} // verus!
