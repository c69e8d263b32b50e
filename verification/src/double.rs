//! IEEE-754 binary64 values, read through their bit patterns.
//!
//! A pattern is 64 bits: the sign in the highest bit, then eleven bits of
//! exponent and fifty-two of fraction. Comparing such a value with zero needs
//! no arithmetic on it: the sign bit and the remaining sixty-three bits,
//! taken as an integer, decide.

use vstd::prelude::*;

verus! {

/// The pattern whose only set bit is the sign.
pub const SIGN_BIT: u64 = 0x8000_0000_0000_0000u64;

/// The pattern of positive infinity: every exponent bit set, no fraction bit.
pub const INFINITY_BITS: u64 = 0x7ff0_0000_0000_0000u64;

/// A binary64 value, held as its bit pattern.
#[derive(Clone, Copy, Debug, PartialEq, Eq, Structural)]
pub struct Double {
    pub bits: u64,
}

impl Double {
    /// The pattern with the sign bit cleared.
    pub open spec fn magnitude(self) -> int {
        if self.bits >= SIGN_BIT {
            self.bits - SIGN_BIT
        } else {
            self.bits as int
        }
    }

    /// The sign bit is set. This holds of negative zero and of some NaNs too.
    pub open spec fn sign_negative(self) -> bool {
        self.bits >= SIGN_BIT
    }

    /// Not a number: every exponent bit set and some fraction bit set.
    pub open spec fn is_nan(self) -> bool {
        self.magnitude() > INFINITY_BITS
    }

    /// Positive or negative zero.
    pub open spec fn is_zero(self) -> bool {
        self.magnitude() == 0
    }

    /// The value compares less than zero: it is no NaN, its sign bit is set,
    /// and it is not negative zero.
    pub open spec fn below_zero(self) -> bool {
        !self.is_nan() && self.sign_negative() && !self.is_zero()
    }

    /// The value compares greater than zero: it is no NaN, its sign bit is
    /// clear, and it is not zero.
    pub open spec fn above_zero(self) -> bool {
        !self.is_nan() && !self.sign_negative() && !self.is_zero()
    }

    /// The value with the given bit pattern.
    pub fn from_bits(bits: u64) -> (d: Double)
        ensures
            d.bits == bits,
    {
        Double { bits }
    }

    /// The bit pattern of the value.
    pub fn to_bits(self) -> (bits: u64)
        ensures
            bits == self.bits,
    {
        self.bits
    }

    fn magnitude_bits(self) -> (m: u64)
        ensures
            m == self.magnitude(),
    {
        if self.bits >= SIGN_BIT {
            self.bits - SIGN_BIT
        } else {
            self.bits
        }
    }

    /// Whether the value is a NaN.
    pub fn nan(self) -> (b: bool)
        ensures
            b == self.is_nan(),
    {
        self.magnitude_bits() > INFINITY_BITS
    }

    /// Whether the value compares less than zero.
    pub fn lt_zero(self) -> (b: bool)
        ensures
            b == self.below_zero(),
    {
        let m: u64 = self.magnitude_bits();
        self.bits >= SIGN_BIT && m != 0 && m <= INFINITY_BITS
    }

    /// Whether the value compares greater than zero.
    pub fn gt_zero(self) -> (b: bool)
        ensures
            b == self.above_zero(),
    {
        self.bits < SIGN_BIT && self.bits != 0 && self.bits <= INFINITY_BITS
    }
}

} // verus!
