//! The binary32 format: one sign bit, eight exponent bits, twenty-three
//! fraction bits.

use crate::datum::{Datum, Format};
use crate::element::Element;
use vstd::arithmetic::power2::lemma2_to64;
use vstd::prelude::*;

verus! {

/// The sign bit of a binary32 encoding.
pub const SIGN_32: u32 = 0x8000_0000;

/// The encoding of positive infinity.
pub const INFINITY_32: u32 = 0x7f80_0000;

/// The encoding of one.
pub const ONE_32: u32 = 0x3f80_0000;

/// A binary32 datum, held by its encoding. Every bit pattern is a datum.
#[derive(Clone, Copy, Debug)]
pub struct Binary32 {
    pub bits: u32,
}

impl Binary32 {
    /// The value with the given encoding.
    pub fn from_bits(bits: u32) -> (r: Self)
        ensures
            r.bits == bits,
    {
        Binary32 { bits }
    }

    /// The encoding of the value.
    pub fn to_bits(self) -> (r: u32)
        ensures
            r == self.bits,
    {
        self.bits
    }
}

/// What the format's parameters come to in numbers.
pub proof fn lemma_binary32_format()
    ensures
        Binary32::format().sign_weight() == SIGN_32,
        Binary32::format().infinity() == INFINITY_32,
        Binary32::format().bias() == 127,
        Binary32::format().unit() == ONE_32,
{
    lemma2_to64();
}

impl Element for Binary32 {
    open spec fn format() -> Format {
        Format { exponent_bits: 8, fraction_bits: 23 }
    }

    open spec fn datum(self) -> Datum {
        if self.bits >= SIGN_32 {
            Datum { negative: true, magnitude: (self.bits - SIGN_32) as nat }
        } else {
            Datum { negative: false, magnitude: self.bits as nat }
        }
    }

    open spec fn from_datum(d: Datum) -> Self {
        if d.negative {
            Binary32 { bits: (d.magnitude + SIGN_32) as u32 }
        } else {
            Binary32 { bits: d.magnitude as u32 }
        }
    }

    proof fn lemma_datum_in_format(self) {
        lemma_binary32_format();
    }

    proof fn lemma_from_own_datum(self) {
    }

    proof fn lemma_datum_of_from(d: Datum) {
        lemma_binary32_format();
    }

    fn zero() -> (r: Self) {
        Binary32 { bits: 0 }
    }

    fn one() -> (r: Self) {
        proof {
            lemma_binary32_format();
        }
        Binary32 { bits: ONE_32 }
    }

    fn negate(self) -> (r: Self) {
        let bits: u32 = self.bits;
        assert(bits ^ 0x8000_0000u32 == if bits >= 0x8000_0000u32 {
            (bits - 0x8000_0000u32) as u32
        } else {
            (bits + 0x8000_0000u32) as u32
        }) by (bit_vector);
        Binary32 { bits: bits ^ SIGN_32 }
    }

    fn magnitude(self) -> (r: Self) {
        let bits: u32 = self.bits;
        assert(bits & 0x7fff_ffffu32 == if bits >= 0x8000_0000u32 {
            (bits - 0x8000_0000u32) as u32
        } else {
            bits
        }) by (bit_vector);
        Binary32 { bits: bits & 0x7fff_ffff }
    }

    fn is_below_zero(self) -> (r: bool) {
        proof {
            lemma_binary32_format();
        }
        SIGN_32 < self.bits && self.bits <= SIGN_32 + INFINITY_32
    }

    fn equals(self, other: Self) -> (r: bool) {
        proof {
            lemma_binary32_format();
        }
        let a: u32 = self.magnitude().bits;
        let b: u32 = other.magnitude().bits;
        a <= INFINITY_32 && b <= INFINITY_32 && (self.bits == other.bits || (a == 0 && b == 0))
    }
}

} // verus!
