//! Double-precision numbers (IEEE 754 binary64), held by their 64 bits.
//!
//! The highest bit is the sign, the next eleven are the exponent, the low fifty-two
//! the fraction. The library compares such numbers and cuts them down to whole
//! numbers without ever computing with them.

use vstd::arithmetic::div_mod::lemma_div_is_ordered_by_denominator;
use vstd::arithmetic::power2::{lemma2_to64, lemma_pow2_pos, lemma_pow2_strictly_increases, pow2};
use vstd::bits::lemma_u64_shr_is_div;
use vstd::prelude::*;

verus! {

/// Two to the power 52: the weight of the lowest exponent bit.
pub const FRACTION_SPAN: u64 = 0x10_0000_0000_0000;

/// Two to the power 63: the sign bit.
pub const SIGN_BIT: u64 = 0x8000_0000_0000_0000;

/// The exponent field of infinities and of values that are no number.
pub const EXPONENT_ALL_ONES: u64 = 2047;

/// The exponent field of the numbers from one up to, not including, two.
pub const EXPONENT_OF_ONE: u64 = 1023;

/// The bits of 4294967295, the largest value of an unsigned 32-bit integer.
pub const BITS_OF_U32_MAX: u64 = 0x41EF_FFFF_FFE0_0000;

/// The exponent field.
pub open spec fn exponent(bits: u64) -> int {
    (bits as int / 0x10_0000_0000_0000) % 2048
}

/// The fraction field.
pub open spec fn fraction(bits: u64) -> int {
    bits as int % 0x10_0000_0000_0000
}

/// Whether the sign bit is set.
pub open spec fn sign_set(bits: u64) -> bool {
    bits >= 0x8000_0000_0000_0000
}

/// Whether the bits are no number at all (a NaN).
pub open spec fn is_nan(bits: u64) -> bool {
    exponent(bits) == 2047 && fraction(bits) != 0
}

/// Whether the bits are zero, of either sign.
pub open spec fn is_zero(bits: u64) -> bool {
    bits == 0 || bits == 0x8000_0000_0000_0000
}

/// Whether the two are equal as numbers: neither is a NaN, and they have the same
/// bits or are both zero.
pub open spec fn equal_numbers(a: u64, b: u64) -> bool {
    !is_nan(a) && !is_nan(b) && (a == b || (is_zero(a) && is_zero(b)))
}

/// Whether the number is neither greater than 4294967295 nor less than zero. No
/// comparison holds of a NaN, so a NaN is neither.
pub open spec fn within_u32(bits: u64) -> bool {
    is_nan(bits) || if sign_set(bits) {
        is_zero(bits)
    } else {
        bits <= BITS_OF_U32_MAX
    }
}

/// The number with what follows its point cut off, for a number that is
/// [`within_u32`]; zero for a NaN.
///
/// A number with exponent field `e` of at least 1023 has the value
/// `(2^52 + fraction) / 2^(1075 - e)`; one with a smaller field is less than one.
pub open spec fn whole_part(bits: u64) -> int {
    if is_nan(bits) || exponent(bits) < 1023 || exponent(bits) > 1075 {
        0
    } else {
        (0x10_0000_0000_0000 + fraction(bits)) / (pow2((1075 - exponent(bits)) as nat) as int)
    }
}

/// Whether the bits are a NaN.
pub fn nan(bits: u64) -> (yes: bool)
    ensures
        yes == is_nan(bits),
{
    (bits / FRACTION_SPAN) % 2048 == EXPONENT_ALL_ONES && bits % FRACTION_SPAN != 0
}

/// Whether the two are equal as numbers.
pub fn same_number(a: u64, b: u64) -> (same: bool)
    ensures
        same == equal_numbers(a, b),
{
    if nan(a) || nan(b) {
        false
    } else {
        a == b || ((a == 0 || a == SIGN_BIT) && (b == 0 || b == SIGN_BIT))
    }
}

/// The number as an unsigned 32-bit integer, what follows its point cut off;
/// `None` for a number greater than 4294967295 or less than zero. A NaN gives zero.
pub fn to_u32(bits: u64) -> (whole: Option<u32>)
    ensures
        whole is Some <==> within_u32(bits),
        whole matches Some(value) ==> value == whole_part(bits),
{
    if nan(bits) {
        return Some(0);
    }
    if bits >= SIGN_BIT {
        return if bits == SIGN_BIT {
            assert(exponent(bits) == 0);
            Some(0)
        } else {
            None
        };
    }
    if bits > BITS_OF_U32_MAX {
        return None;
    }
    let field: u64 = (bits / FRACTION_SPAN) % 2048;
    if field < EXPONENT_OF_ONE {
        return Some(0);
    }
    assert(field <= 1054);
    let significand: u64 = FRACTION_SPAN + bits % FRACTION_SPAN;
    let shift: u64 = 1075 - field;
    let cut: u64 = significand >> shift;
    proof {
        lemma_u64_shr_is_div(significand, shift);
        lemma2_to64();
        lemma_pow2_pos(shift as nat);
        if shift > 21 {
            lemma_pow2_strictly_increases(21, shift as nat);
        }
        lemma_div_is_ordered_by_denominator(
            significand as int,
            0x20_0000,
            pow2(shift as nat) as int,
        );
        assert(significand as int / 0x20_0000 < 0x1_0000_0000);
    }
    Some(cut as u32)
}

} // verus!
