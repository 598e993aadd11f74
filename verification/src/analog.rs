//! Analog magnitudes, carried as IEEE 754 single-precision bit patterns.
//!
//! The verified library never computes with binary fractions. A magnitude is
//! held as the 32 bits that encode it, and the one question asked of it, whether
//! it reaches one half, is answered from the sign, exponent and fraction fields.

use vstd::prelude::*;

verus! {

/// An analog magnitude: the bit pattern of a single-precision number.
#[derive(Clone, Copy, Debug, PartialEq, Eq, Structural)]
pub struct Analog {
    pub bits: u32,
}

impl Analog {
    /// The sign field: 1 for a negative number.
    pub open spec fn sign(self) -> int {
        self.bits as int / 0x8000_0000
    }

    /// The biased exponent field, 0 to 255.
    pub open spec fn exponent(self) -> int {
        (self.bits as int / 0x80_0000) % 0x100
    }

    /// The fraction field, 23 bits.
    pub open spec fn fraction(self) -> int {
        self.bits as int % 0x80_0000
    }

    /// Whether the pattern encodes no number at all.
    pub open spec fn is_nan(self) -> bool {
        self.exponent() == 255 && self.fraction() != 0
    }

    /// Whether the encoded number is at least one half: it is a number, it is
    /// not negative, and its magnitude is two to the power of minus one or more.
    pub open spec fn at_least_half(self) -> bool {
        !self.is_nan() && self.sign() == 0 && self.exponent() >= 126
    }

    /// The pattern of positive zero.
    pub open spec fn spec_zero() -> Analog {
        Analog { bits: 0 }
    }

    pub fn from_bits(bits: u32) -> (a: Analog)
        ensures
            a.bits == bits,
    {
        Analog { bits }
    }

    pub fn to_bits(self) -> (bits: u32)
        ensures
            bits == self.bits,
    {
        self.bits
    }

    #[verifier::when_used_as_spec(spec_zero)]
    pub fn zero() -> (a: Analog)
        ensures
            a == Analog::spec_zero(),
    {
        Analog { bits: 0 }
    }

    /// The press threshold: `true` exactly when the magnitude is at least one half.
    pub fn is_down(self) -> (down: bool)
        ensures
            down == self.at_least_half(),
    {
        0x3f00_0000 <= self.bits && self.bits <= 0x7f80_0000
    }
}

} // verus!
