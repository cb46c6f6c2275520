//! JSON numbers, held as the bit pattern of an IEEE-754 binary64 value.
//!
//! The library never computes with floating point. What it needs of a number
//! (whether it is finite, and the pixel coordinate it names) is read from the
//! sign, exponent and fraction fields of the pattern.

use vstd::prelude::*;
use vstd::arithmetic::power2::*;
use vstd::arithmetic::div_mod::*;
use vstd::arithmetic::mul::*;
use vstd::bits::*;

verus! {

/// A number of a JSON document: the 64 bits of a double-precision value.
#[derive(Clone, Copy, Debug, PartialEq, Eq, Structural)]
pub struct Number {
    pub bits: u64,
}

/// The exponent field of infinities and NaNs.
pub const EXPONENT_SPECIAL: u64 = 0x7ff;

/// The exponent field of the values in `[1, 2)`.
pub const EXPONENT_BIAS: u64 = 1023;

/// The number of bits of the fraction field.
pub const FRACTION_BITS: u64 = 52;

/// The mask of the fraction field.
pub const FRACTION_MASK: u64 = 0x000f_ffff_ffff_ffff;

/// The implicit leading bit of a normal number's significand.
pub const HIDDEN_BIT: u64 = 0x0010_0000_0000_0000;

/// Limits `value` to the range of `i32`.
pub open spec fn clamp_to_i32(value: int) -> int {
    if value < i32::MIN {
        i32::MIN as int
    } else if value > i32::MAX {
        i32::MAX as int
    } else {
        value
    }
}

impl Number {
    /// Whether the sign bit is set.
    pub open spec fn negative(self) -> bool {
        self.bits >> 63 == 1
    }

    /// The biased exponent field.
    pub open spec fn exponent(self) -> nat {
        ((self.bits >> 52) & 0x7ff) as nat
    }

    /// The fraction field.
    pub open spec fn fraction(self) -> nat {
        (self.bits & 0x000f_ffff_ffff_ffff) as nat
    }

    /// Whether the pattern is a NaN.
    pub open spec fn nan(self) -> bool {
        self.exponent() == 2047 && self.fraction() != 0
    }

    /// Whether the pattern is neither an infinity nor a NaN.
    pub open spec fn finite(self) -> bool {
        self.exponent() != 2047
    }

    /// The absolute value of a finite number, rounded toward zero.
    ///
    /// A normal number has the value `(2^52 + fraction) * 2^(exponent - 1075)`;
    /// below exponent 1023 the absolute value is less than one.
    pub open spec fn whole_magnitude(self) -> nat {
        let e = self.exponent();
        let significand = pow2(52) + self.fraction();
        if e < 1023 {
            0
        } else if e <= 1075 {
            significand / pow2((1075 - e) as nat)
        } else {
            significand * pow2((e - 1075) as nat)
        }
    }

    /// The integer that a conversion to `i32` yields: zero for a NaN, else
    /// the value rounded toward zero and limited to the range of `i32`.
    pub open spec fn truncated(self) -> int {
        if self.nan() {
            0
        } else if !self.finite() {
            if self.negative() {
                i32::MIN as int
            } else {
                i32::MAX as int
            }
        } else if self.negative() {
            clamp_to_i32(-(self.whole_magnitude() as int))
        } else {
            clamp_to_i32(self.whole_magnitude() as int)
        }
    }

    /// The number whose bit pattern is `bits`.
    pub fn from_bits(bits: u64) -> (n: Number)
        ensures
            n.bits == bits,
    {
        Number { bits }
    }

    /// The bit pattern of this number.
    pub fn to_bits(self) -> (bits: u64)
        ensures
            bits == self.bits,
    {
        self.bits
    }

    /// Positive zero.
    pub fn zero() -> (n: Number)
        ensures
            n.bits == 0,
    {
        Number { bits: 0 }
    }

    /// Tells whether the number is finite.
    pub fn is_finite(self) -> (r: bool)
        ensures
            r == self.finite(),
    {
        (self.bits >> 52) & 0x7ff != EXPONENT_SPECIAL
    }

    /// Converts to `i32` as a numeric cast does: toward zero, saturating at
    /// the bounds of `i32`, and zero for a NaN.
    pub fn to_i32(self) -> (r: i32)
        ensures
            r == self.truncated(),
    {
        let bits: u64 = self.bits;
        let negative: bool = bits >> 63 == 1;
        let e: u64 = (bits >> 52) & 0x7ff;
        let f: u64 = bits & FRACTION_MASK;
        assert(e <= 0x7ff && f < 0x0010_0000_0000_0000) by (bit_vector)
            requires
                e == (bits >> 52) & 0x7ff,
                f == bits & 0x000f_ffff_ffff_ffff,
        ;
        proof {
            lemma2_to64();
            lemma2_to64_rest();
        }
        if e == EXPONENT_SPECIAL {
            if f != 0 {
                return 0;
            }
            return if negative {
                i32::MIN
            } else {
                i32::MAX
            };
        }
        if e < EXPONENT_BIAS {
            return 0;
        }
        let significand: u64 = HIDDEN_BIT | f;
        assert(significand == 0x0010_0000_0000_0000 + f) by (bit_vector)
            requires
                significand == 0x0010_0000_0000_0000u64 | f,
                f < 0x0010_0000_0000_0000,
        ;
        if e >= EXPONENT_BIAS + 31 {
            proof {
                lemma_magnitude_large(self);
            }
            return if negative {
                i32::MIN
            } else {
                i32::MAX
            };
        }
        let shift: u64 = EXPONENT_BIAS + FRACTION_BITS - e;
        let whole: u64 = significand >> shift;
        proof {
            lemma_u64_shr_is_div(significand, shift);
            assert(whole < 0x8000_0000) by (bit_vector)
                requires
                    whole == significand >> shift,
                    significand < 0x0020_0000_0000_0000,
                    22 <= shift <= 52,
            ;
            assert(whole as nat == self.whole_magnitude());
        }
        if negative {
            -(whole as i32)
        } else {
            whole as i32
        }
    }
}

/// From exponent 1054 on, the absolute value is at least `2^31`.
proof fn lemma_magnitude_large(n: Number)
    requires
        1054 <= n.exponent() < 2047,
    ensures
        n.whole_magnitude() >= 0x8000_0000,
{
    lemma2_to64();
    lemma2_to64_rest();
    let e = n.exponent();
    let significand = pow2(52) + n.fraction();
    if e <= 1075 {
        let k = (1075 - e) as nat;
        if k < 21 {
            lemma_pow2_strictly_increases(k, 21);
        }
        lemma_pow2_pos(k);
        lemma_div_is_ordered_by_denominator(significand as int, pow2(k) as int, pow2(21) as int);
        lemma_div_is_ordered(pow2(52) as int, significand as int, pow2(21) as int);
        assert(pow2(52) / pow2(21) == 0x8000_0000) by {
            assert(0x0010_0000_0000_0000int / 0x20_0000int == 0x8000_0000int);
        }
    } else {
        let k = (e - 1075) as nat;
        lemma_pow2_pos(k);
        lemma_mul_inequality(1, pow2(k) as int, significand as int);
        assert(significand * pow2(k) == pow2(k) * significand) by {
            lemma_mul_is_commutative(significand as int, pow2(k) as int);
        }
    }
}

} // verus!
