//! The truncation-tier encoding: IEEE-754 narrowing of a 64-bit bit
//! pattern to a 32-bit bit pattern.
//!
//! The single-precision tier transports every 64-bit value as the nearest
//! 32-bit value, rounding ties to even, with overflow going to infinity,
//! tiny values going to a subnormal or to (signed) zero, and NaNs staying
//! NaN with the quiet bit set and the payload truncated.  The conversion
//! is carried out here directly on the bit patterns, in integer
//! arithmetic, and proved equal to [`narrowed`], the bit-level statement
//! of the IEEE-754 rule.

use vstd::arithmetic::div_mod::{
    lemma_div_is_ordered_by_denominator, lemma_multiply_divide_lt,
};
use vstd::arithmetic::power2::{lemma2_to64, lemma2_to64_rest, lemma_pow2_strictly_increases, pow2};
use vstd::bits::{
    lemma_u64_low_bits_mask_is_mod, lemma_u64_pow2_no_overflow, lemma_u64_shl_is_mul,
    lemma_u64_shr_is_div, low_bits_mask,
};
use vstd::prelude::*;

verus! {

/// `n / 2^s`, rounded to the nearest integer with ties going to the even
/// quotient.
pub open spec fn round_ne(n: nat, s: nat) -> nat
    recommends
        1 <= s,
{
    let q = n / pow2(s);
    let r = n % pow2(s);
    let half = pow2((s - 1) as nat);
    if r > half || (r == half && q % 2 == 1) {
        q + 1
    } else {
        q
    }
}

/// The sign bit of a 64-bit pattern, moved to the sign position of a
/// 32-bit pattern.
pub open spec fn sign_word(b: u64) -> u32 {
    if b >= 0x8000_0000_0000_0000 {
        0x8000_0000u32
    } else {
        0u32
    }
}

/// The 11-bit biased exponent field of a 64-bit pattern.
pub open spec fn exp_field(b: u64) -> u64 {
    (b >> 52) & 0x7ff
}

/// The 52-bit fraction field of a 64-bit pattern.
pub open spec fn frac_field(b: u64) -> u64 {
    b & 0x000f_ffff_ffff_ffff
}

/// The 32-bit pattern that IEEE-754 narrowing (round to nearest, ties to
/// even) assigns to the 64-bit pattern `b`.
///
/// The exponent comparisons mark the four regimes of the conversion:
/// biased 64-bit exponents of 1151 and above overflow to infinity,
/// 897..=1150 land on a normal 32-bit value (1151 can still be reached by
/// the rounding step, which then yields infinity through the same
/// formula), 873..=896 land on a subnormal or round up to the smallest
/// normal, and everything below underflows to signed zero.  A NaN keeps
/// its sign, has its quiet bit forced on and its payload truncated to the
/// 23 remaining fraction bits.
pub open spec fn narrowed(b: u64) -> u32 {
    let s = sign_word(b);
    let e = exp_field(b);
    let f = frac_field(b);
    if e == 0x7ff {
        if f == 0 {
            (s + 0x7f80_0000) as u32
        } else {
            (s + (0x7fc0_0000u32 | ((f >> 29) as u32))) as u32
        }
    } else if e >= 1151 {
        (s + 0x7f80_0000) as u32
    } else if e >= 897 {
        let q = round_ne((0x0010_0000_0000_0000 + f) as nat, 29);
        (s + (e - 897) * 0x0080_0000 + q) as u32
    } else if e >= 873 {
        let q = round_ne((0x0010_0000_0000_0000 + f) as nat, (926 - e) as nat);
        (s + q) as u32
    } else {
        s
    }
}

/// Rounding never adds more than one to the truncated quotient.
proof fn lemma_round_ne_le(n: nat, s: nat)
    requires
        1 <= s,
    ensures
        round_ne(n, s) <= n / pow2(s) + 1,
{
}

/// `n >> s` with round-to-nearest-even on the shifted-out bits.
fn round_shift(n: u64, s: u64) -> (q: u64)
    requires
        1 <= s <= 63,
    ensures
        q == round_ne(n as nat, s as nat),
{
    proof {
        lemma_u64_pow2_no_overflow(s as nat);
        lemma_u64_pow2_no_overflow((s - 1) as nat);
        lemma_u64_shr_is_div(n, s);
        lemma_u64_shl_is_mul(1u64, s);
        lemma_u64_shl_is_mul(1u64, (s - 1) as u64);
        lemma_u64_low_bits_mask_is_mod(n, s as nat);
        lemma2_to64();
        if s > 1 {
            lemma_pow2_strictly_increases(1, s as nat);
        }
        // q0 + 1 cannot overflow: the quotient is at most n / 2.
        lemma_div_is_ordered_by_denominator(n as int, 2, pow2(s as nat) as int);
    }
    let q0: u64 = n >> s;
    let mask: u64 = (1u64 << s) - 1;
    let rem: u64 = n & mask;
    let half: u64 = 1u64 << (s - 1);
    proof {
        assert(mask == low_bits_mask(s as nat));
        assert(q0 & 1 == q0 % 2) by (bit_vector);
    }
    if rem > half || (rem == half && (q0 & 1) == 1) {
        q0 + 1
    } else {
        q0
    }
}

/// Narrowing is exact on every value the 32-bit form can represent: when
/// the biased exponent lies in the 32-bit normal range and the low 29
/// fraction bits are zero, no rounding happens — sign and exponent are
/// re-biased and the mantissa is carried over unchanged.
pub proof fn lemma_narrow_exact_when_representable(b: u64)
    requires
        897 <= exp_field(b) <= 1150,
        frac_field(b) % 0x2000_0000 == 0,
    ensures
        narrowed(b) == sign_word(b) + (exp_field(b) - 896) * 0x0080_0000 + frac_field(b)
            / 0x2000_0000,
{
    let e = exp_field(b);
    let f = frac_field(b) as int;
    let k = 0x2000_0000int;  // 2^29
    assert((b >> 52) & 0x7ff < 0x800) by (bit_vector);
    assert(b & 0x000f_ffff_ffff_ffff < 0x0010_0000_0000_0000) by (bit_vector);
    lemma2_to64();
    assert(pow2(29) == k);
    assert(pow2(28) == 0x1000_0000);
    vstd::arithmetic::div_mod::lemma_fundamental_div_mod(f, k);
    let m = f / k;
    assert(f == k * m);
    let n = 0x0010_0000_0000_0000 + f;
    assert(n == (0x0080_0000 + m) * k) by (nonlinear_arith)
        requires
            f == k * m,
            n == 0x0010_0000_0000_0000 + f,
            k == 0x2000_0000,
    ;
    vstd::arithmetic::div_mod::lemma_div_by_multiple(0x0080_0000 + m, k);
    vstd::arithmetic::div_mod::lemma_mod_multiples_basic(0x0080_0000 + m, k);
    assert(n / (pow2(29) as int) == 0x0080_0000 + m);
    assert(n % (pow2(29) as int) == 0);
    assert(round_ne(n as nat, 29) == 0x0080_0000 + m);
    lemma_multiply_divide_lt(f, 0x0080_0000, k);
    assert(narrowed(b) == (sign_word(b) + (e - 897) * 0x0080_0000 + (0x0080_0000 + m)) as u32);
    assert(sign_word(b) + (e - 897) * 0x0080_0000 + (0x0080_0000 + m) == sign_word(b) + (e - 896)
        * 0x0080_0000 + m) by (nonlinear_arith);
}

/// Narrows a 64-bit bit pattern to the 32-bit bit pattern of the nearest
/// single-precision value, per the IEEE-754 rule stated by [`narrowed`].
pub fn narrow_bits(b: u64) -> (r: u32)
    ensures
        r == narrowed(b),
{
    let s: u32 = if b >= 0x8000_0000_0000_0000 {
        0x8000_0000
    } else {
        0
    };
    let e: u64 = (b >> 52) & 0x7ff;
    let f: u64 = b & 0x000f_ffff_ffff_ffff;
    proof {
        assert((b & 0x000f_ffff_ffff_ffff) < 0x0010_0000_0000_0000) by (bit_vector);
        assert((b & 0x000f_ffff_ffff_ffff) >> 29 < 0x0080_0000) by (bit_vector);
        assert((0x7fc0_0000u32 | (((b & 0x000f_ffff_ffff_ffff) >> 29) as u32)) < 0x8000_0000)
            by (bit_vector);
    }
    if e == 0x7ff {
        if f == 0 {
            s + 0x7f80_0000
        } else {
            s + (0x7fc0_0000u32 | ((f >> 29) as u32))
        }
    } else if e >= 1151 {
        s + 0x7f80_0000
    } else if e >= 897 {
        let sig: u64 = 0x0010_0000_0000_0000 + f;
        let q: u64 = round_shift(sig, 29);
        proof {
            lemma_round_ne_le(sig as nat, 29);
            lemma2_to64();
            assert(pow2(29) == 0x2000_0000);
            lemma_multiply_divide_lt(sig as int, 0x0100_0000, 0x2000_0000);
        }
        s + ((e - 897) as u32) * 0x0080_0000 + (q as u32)
    } else if e >= 873 {
        let sig: u64 = 0x0010_0000_0000_0000 + f;
        let q: u64 = round_shift(sig, 926 - e);
        proof {
            lemma_round_ne_le(sig as nat, (926 - e) as nat);
            lemma2_to64();
            lemma2_to64_rest();
            assert(pow2(30) == 0x4000_0000);
            if 926 - e > 30 {
                lemma_pow2_strictly_increases(30, (926 - e) as nat);
            }
            lemma_div_is_ordered_by_denominator(
                sig as int,
                pow2(30) as int,
                pow2((926 - e) as nat) as int,
            );
            lemma_multiply_divide_lt(sig as int, 0x0080_0000, 0x4000_0000);
        }
        s + (q as u32)
    } else {
        s
    }
}

} // verus!
