//! IEEE-754 double precision values, held by their bit pattern.
//!
//! Script data carries every numeric field as a 64-bit float. The demuxer never
//! does arithmetic on those values: it stores them and truncates a few of them
//! to unsigned integers. Both are done here on the bit pattern alone.

use vstd::prelude::*;
use vstd::arithmetic::power2::pow2;

verus! {

/// Two to the power 52: the weight of the implicit leading bit of a double.
pub const HIDDEN_BIT: u64 = 0x10_0000_0000_0000;

/// Two to the power 63: the sign bit of a double.
pub const SIGN_BIT: u64 = 0x8000_0000_0000_0000;

/// The exponent bias of a double.
pub const BIAS: u64 = 1023;

/// A double precision number, kept as the 64 bits of its IEEE-754 encoding.
#[derive(Debug, Clone, Copy, PartialEq, Eq, Structural)]
pub struct Number {
    pub bits: u64,
}

impl Number {
    /// The biased exponent field (11 bits).
    pub open spec fn exponent(self) -> int {
        (self.bits as int / HIDDEN_BIT as int) % 0x800
    }

    /// The fraction field (52 bits).
    pub open spec fn fraction(self) -> int {
        self.bits as int % HIDDEN_BIT as int
    }

    /// Whether the sign bit is set.
    pub open spec fn negative(self) -> bool {
        self.bits >= SIGN_BIT
    }

    /// Whether the encoding is a NaN.
    pub open spec fn nan(self) -> bool {
        self.exponent() == 0x7ff && self.fraction() != 0
    }

    /// The value truncated towards zero and clamped to the range of `u32`;
    /// a NaN gives zero.
    ///
    /// A finite positive double is `(2^52 + fraction) * 2^(exponent - 1075)`, so
    /// for a value in `[1, 2^32)` the integer part is the significand divided by
    /// `2^(1075 - exponent)`.
    pub open spec fn truncated(self) -> int {
        if self.negative() || self.nan() || self.exponent() < BIAS {
            0
        } else if self.exponent() >= BIAS + 32 {
            u32::MAX as int
        } else {
            (HIDDEN_BIT + self.fraction()) / (pow2((1075 - self.exponent()) as nat) as int)
        }
    }

    /// The truncated value is a number of 32 bits without sign.
    pub proof fn lemma_truncated_fits(self)
        ensures
            0 <= self.truncated() <= u32::MAX,
    {
        if !(self.negative() || self.nan() || self.exponent() < BIAS) && self.exponent() < BIAS
            + 32 {
            let shift = (1075 - self.exponent()) as nat;
            vstd::arithmetic::power2::lemma2_to64();
            if shift > 21 {
                vstd::arithmetic::power2::lemma_pow2_strictly_increases(21, shift);
            }
            let p: int = pow2(shift) as int;
            let significand: int = HIDDEN_BIT + self.fraction();
            assert(p >= 0x20_0000);
            assert(0 <= significand / p < 0x1_0000_0000) by (nonlinear_arith)
                requires
                    p >= 0x20_0000,
                    0 <= significand < 0x20_0000_0000_0000,
            ;
        }
    }

    /// Wraps a bit pattern.
    pub fn from_bits(bits: u64) -> (n: Number)
        ensures
            n.bits == bits,
    {
        Number { bits }
    }

    /// The bit pattern.
    pub fn to_bits(&self) -> (bits: u64)
        ensures
            bits == self.bits,
    {
        self.bits
    }

    /// Whether the number is a NaN.
    pub fn is_nan(&self) -> (r: bool)
        ensures
            r == self.nan(),
    {
        let exponent: u64 = (self.bits / HIDDEN_BIT) % 0x800;
        let fraction: u64 = self.bits % HIDDEN_BIT;
        exponent == 0x7ff && fraction != 0
    }

    /// Truncates to `u32`, saturating at the bounds of the type.
    pub fn to_u32(&self) -> (r: u32)
        ensures
            r as int == self.truncated(),
    {
        let exponent: u64 = (self.bits / HIDDEN_BIT) % 0x800;
        let fraction: u64 = self.bits % HIDDEN_BIT;
        if self.bits >= SIGN_BIT || (exponent == 0x7ff && fraction != 0) || exponent < BIAS {
            0
        } else if exponent >= BIAS + 32 {
            u32::MAX
        } else {
            let shift: u64 = 1075 - exponent;
            let significand: u64 = HIDDEN_BIT + fraction;
            let shifted: u64 = significand >> shift;
            proof {
                vstd::bits::lemma_u64_shr_is_div(significand, shift);
                vstd::arithmetic::power2::lemma2_to64();
                if shift > 21 {
                    vstd::arithmetic::power2::lemma_pow2_strictly_increases(21, shift as nat);
                }
                let p: int = pow2(shift as nat) as int;
                assert(p >= 0x20_0000);
                assert(significand as int / p < 0x1_0000_0000) by (nonlinear_arith)
                    requires
                        p >= 0x20_0000,
                        0 <= significand < 0x20_0000_0000_0000,
                ;
            }
            shifted as u32
        }
    }
}

} // verus!
