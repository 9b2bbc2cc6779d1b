//! Turning a float into an integer without floating-point arithmetic.
//!
//! A float is taken as the 64 bits of its IEEE 754 double: one bit for the
//! sign, eleven for the exponent and fifty-two for the fraction. A normal
//! number has the magnitude `(2^52 + fraction) * 2^(exponent - 1075)`.

use vstd::prelude::*;
use vstd::arithmetic::power2::pow2;
use vstd::bits::lemma_u64_shr_is_div;

verus! {

/// Two to the power of 52: one more than the largest fraction.
pub const FRACTION_RANGE: u64 = 0x10_0000_0000_0000;

/// The exponent field of the number one.
pub const EXPONENT_OF_ONE: u64 = 1023;

/// The exponent field that marks an infinity or a NaN.
pub const EXPONENT_SPECIAL: u64 = 2047;

/// Whether the sign bit is set.
pub open spec fn float_negative(bits: u64) -> bool {
    bits >= 0x8000_0000_0000_0000
}

/// The exponent field.
pub open spec fn float_exponent(bits: u64) -> int {
    (bits as int / FRACTION_RANGE as int) % 2048
}

/// The fraction field.
pub open spec fn float_fraction(bits: u64) -> int {
    bits as int % FRACTION_RANGE as int
}

/// The float as an `i32`: cut off toward zero, held to the range of `i32`,
/// and zero for a NaN. This is what a cast from `f64` to `i32` gives.
pub open spec fn truncated_i32(bits: u64) -> int {
    let exponent = float_exponent(bits);
    let fraction = float_fraction(bits);
    if exponent == EXPONENT_SPECIAL && fraction != 0 {
        0
    } else if exponent < EXPONENT_OF_ONE {
        0
    } else if exponent >= EXPONENT_OF_ONE + 31 {
        if float_negative(bits) {
            i32::MIN as int
        } else {
            i32::MAX as int
        }
    } else {
        let magnitude = (FRACTION_RANGE + fraction) / pow2((EXPONENT_OF_ONE + 52 - exponent) as nat)
            as int;
        if float_negative(bits) {
            -magnitude
        } else {
            magnitude
        }
    }
}

/// Cuts a float, given by its bits, down to an `i32`; see `truncated_i32`.
pub fn truncate_to_i32(bits: u64) -> (r: i32)
    ensures
        r == truncated_i32(bits),
{
    let negative = bits >= 0x8000_0000_0000_0000;
    let exponent: u64 = (bits / FRACTION_RANGE) % 2048;
    let fraction: u64 = bits % FRACTION_RANGE;
    if exponent == EXPONENT_SPECIAL && fraction != 0 {
        0
    } else if exponent < EXPONENT_OF_ONE {
        0
    } else if exponent >= EXPONENT_OF_ONE + 31 {
        if negative {
            i32::MIN
        } else {
            i32::MAX
        }
    } else {
        let significand: u64 = FRACTION_RANGE + fraction;
        let shift: u64 = EXPONENT_OF_ONE + 52 - exponent;
        let magnitude: u64 = significand >> shift;
        proof {
            lemma_u64_shr_is_div(significand, shift);
            assert(significand >> shift < 0x8000_0000u64) by (bit_vector)
                requires
                    significand < 0x20_0000_0000_0000u64,
                    22 <= shift < 64,
            ;
        }
        if negative {
            -(magnitude as i32)
        } else {
            magnitude as i32
        }
    }
}

} // verus!
