//! Lossless transport of 64-bit values through a 32-bit word channel.
//!
//! The evaluation pipeline's native word size is 32 bits.  In the
//! double-precision tier a 64-bit bit pattern is split into its low and
//! high 32-bit words; the consumer recombines them into the original
//! pattern.  The split is total and lossless for every bit pattern,
//! including those of NaNs, infinities, signed zeros and subnormals.

use vstd::prelude::*;

verus! {

/// A 2-D point or extent whose two 64-bit components are carried as
/// IEEE-754 bit patterns.
#[derive(Debug, Clone, Copy, PartialEq, Eq, Structural)]
pub struct Vec2Bits {
    pub x: u64,
    pub y: u64,
}

/// The low 32 bits of a 64-bit bit pattern.
pub open spec fn lo_word(bits: u64) -> u32 {
    (bits & 0xffff_ffff) as u32
}

/// The high 32 bits of a 64-bit bit pattern.
pub open spec fn hi_word(bits: u64) -> u32 {
    (bits >> 32) as u32
}

/// The 64-bit pattern whose low word is `lo` and whose high word is `hi`.
pub open spec fn merged_words(lo: u32, hi: u32) -> u64 {
    ((lo as u64) | ((hi as u64) << 32)) as u64
}

/// Splits a 64-bit bit pattern into `(low word, high word)`.
pub fn split_bits(bits: u64) -> (r: (u32, u32))
    ensures
        r.0 == lo_word(bits),
        r.1 == hi_word(bits),
{
    let lo: u32 = (bits & 0xffff_ffff) as u32;
    let hi: u32 = (bits >> 32) as u32;
    (lo, hi)
}

/// Recombines a low and a high 32-bit word into one 64-bit bit pattern;
/// the exact inverse of `split_bits`.
pub fn merge_bits(lo: u32, hi: u32) -> (r: u64)
    ensures
        r == merged_words(lo, hi),
{
    (lo as u64) | ((hi as u64) << 32)
}

/// Splitting a bit pattern into its two words and recombining them
/// reproduces the pattern exactly, whatever value the bits encode.
pub proof fn lemma_split_merge_roundtrip(bits: u64)
    ensures
        merged_words(lo_word(bits), hi_word(bits)) == bits,
{
    assert(((((bits & 0xffff_ffff) as u32) as u64) | ((((bits >> 32) as u32) as u64) << 32))
        as u64 == bits) by (bit_vector);
}

/// The active numeric precision of one evaluation frame.  The tier is
/// uniform across a whole payload; mixed-tier payloads do not exist.
#[derive(Debug, Clone, Copy, PartialEq, Eq, Structural)]
pub enum PrecisionTier {
    Single,
    Double,
}

/// One 64-bit value in wire form: in the single-precision tier the
/// nearest 32-bit pattern, in the double-precision tier the exact
/// `(low word, high word)` split of the 64-bit pattern.
#[derive(Debug, Clone, Copy, PartialEq, Eq, Structural)]
pub enum EncodedFloat {
    Single(u32),
    Double(u32, u32),
}

/// A pair of encoded 64-bit values, each axis encoded independently; in
/// the double-precision tier the word order is x-low, x-high, y-low,
/// y-high.
#[derive(Debug, Clone, Copy, PartialEq, Eq, Structural)]
pub enum EncodedVec2 {
    Single(u32, u32),
    Double(u32, u32, u32, u32),
}

/// The wire form of the 64-bit pattern `bits` in tier `tier`.
pub open spec fn encoded_float(tier: PrecisionTier, bits: u64) -> EncodedFloat {
    match tier {
        PrecisionTier::Single => EncodedFloat::Single(crate::narrow::narrowed(bits)),
        PrecisionTier::Double => EncodedFloat::Double(lo_word(bits), hi_word(bits)),
    }
}

/// The wire form of the pair `v` in tier `tier`.
pub open spec fn encoded_vec2(tier: PrecisionTier, v: Vec2Bits) -> EncodedVec2 {
    match tier {
        PrecisionTier::Single => EncodedVec2::Single(
            crate::narrow::narrowed(v.x),
            crate::narrow::narrowed(v.y),
        ),
        PrecisionTier::Double => EncodedVec2::Double(
            lo_word(v.x),
            hi_word(v.x),
            lo_word(v.y),
            hi_word(v.y),
        ),
    }
}

/// Encodes one 64-bit pattern for the active tier: narrowed in the
/// single-precision tier, split losslessly into two words in the
/// double-precision tier.
pub fn encode_value(tier: PrecisionTier, bits: u64) -> (r: EncodedFloat)
    ensures
        r == encoded_float(tier, bits),
{
    match tier {
        PrecisionTier::Single => EncodedFloat::Single(crate::narrow::narrow_bits(bits)),
        PrecisionTier::Double => {
            let (lo, hi) = split_bits(bits);
            EncodedFloat::Double(lo, hi)
        },
    }
}

/// Encodes a pair of 64-bit patterns, each axis by the same rule as
/// [`encode_value`].
pub fn encode_pair(tier: PrecisionTier, v: Vec2Bits) -> (r: EncodedVec2)
    ensures
        r == encoded_vec2(tier, v),
{
    match tier {
        PrecisionTier::Single => EncodedVec2::Single(
            crate::narrow::narrow_bits(v.x),
            crate::narrow::narrow_bits(v.y),
        ),
        PrecisionTier::Double => {
            let (x_lo, x_hi) = split_bits(v.x);
            let (y_lo, y_hi) = split_bits(v.y);
            EncodedVec2::Double(x_lo, x_hi, y_lo, y_hi)
        },
    }
}

/// Recombining two words and splitting the result returns the same words:
/// the split is onto as well as one-to-one.
pub proof fn lemma_merge_split_roundtrip(lo: u32, hi: u32)
    ensures
        lo_word(merged_words(lo, hi)) == lo,
        hi_word(merged_words(lo, hi)) == hi,
{
    assert(((((lo as u64) | ((hi as u64) << 32)) as u64) & 0xffff_ffff) as u32 == lo)
        by (bit_vector);
    assert(((((lo as u64) | ((hi as u64) << 32)) as u64) >> 32) as u32 == hi) by (bit_vector);
}

} // verus!
