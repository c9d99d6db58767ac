//! Precision selection.
//!
//! Whether the evaluator may run its double-precision path is decided
//! from two inputs: a capability flag probed from the rendering backend
//! once at startup, and the user-facing toggle.  The user's request is
//! honored only on capable hardware; on anything else the frame silently
//! falls back to the single-precision tier.

use vstd::prelude::*;

use crate::shader_float::PrecisionTier;

verus! {

/// The one-shot hardware capability flag: true when the backend offers
/// both 64-bit arithmetic and 64-bit integer operations.  Written once at
/// startup, read-only afterwards.
#[derive(Debug, Clone, Copy, PartialEq, Eq, Structural, Default)]
pub struct DoublePrecisionSupported(pub bool);

/// Combines the two backend feature probes into the capability flag: the
/// double-precision path needs 64-bit arithmetic and 64-bit integer
/// operations together.
pub fn double_precision_supported(shader_double_feature: bool, shader_int64_feature: bool) -> (r:
    DoublePrecisionSupported)
    ensures
        r.0 == (shader_double_feature && shader_int64_feature),
{
    DoublePrecisionSupported(shader_double_feature && shader_int64_feature)
}

/// The tier that is in force for one frame.  The capability flag is
/// re-checked on every call; a request for double precision on
/// unsupported hardware falls back to the single-precision tier and is
/// never an error.
pub open spec fn effective_tier(
    use_double_precision: bool,
    supported: DoublePrecisionSupported,
) -> PrecisionTier {
    if use_double_precision && supported.0 {
        PrecisionTier::Double
    } else {
        PrecisionTier::Single
    }
}

/// Decides the active tier for a frame from the user toggle and the
/// capability flag.
pub fn select_tier(use_double_precision: bool, supported: DoublePrecisionSupported) -> (r:
    PrecisionTier)
    ensures
        r == effective_tier(use_double_precision, supported),
        r is Double <==> (use_double_precision && supported.0),
{
    if use_double_precision && supported.0 {
        PrecisionTier::Double
    } else {
        PrecisionTier::Single
    }
}

} // verus!
