//! The binary64 format: one sign bit, eleven exponent bits, fifty-two
//! fraction bits.

use crate::datum::{Datum, Format};
use crate::element::Element;
use vstd::arithmetic::power2::{lemma2_to64, lemma2_to64_rest, pow2};
use vstd::prelude::*;

verus! {

/// The sign bit of a binary64 encoding.
pub const SIGN_64: u64 = 0x8000_0000_0000_0000;

/// The encoding of positive infinity.
pub const INFINITY_64: u64 = 0x7ff0_0000_0000_0000;

/// The encoding of one.
pub const ONE_64: u64 = 0x3ff0_0000_0000_0000;

/// A binary64 datum, held by its encoding. Every bit pattern is a datum.
#[derive(Clone, Copy, Debug)]
pub struct Binary64 {
    pub bits: u64,
}

impl Binary64 {
    /// The value with the given encoding.
    pub fn from_bits(bits: u64) -> (r: Self)
        ensures
            r.bits == bits,
    {
        Binary64 { bits }
    }

    /// The encoding of the value.
    pub fn to_bits(self) -> (r: u64)
        ensures
            r == self.bits,
    {
        self.bits
    }
}

/// What the format's parameters come to in numbers.
pub proof fn lemma_binary64_format()
    ensures
        Binary64::format().sign_weight() == SIGN_64,
        Binary64::format().infinity() == INFINITY_64,
        Binary64::format().bias() == 1023,
        Binary64::format().unit() == ONE_64,
{
    lemma2_to64();
    lemma2_to64_rest();
}

impl Element for Binary64 {
    open spec fn format() -> Format {
        Format { exponent_bits: 11, fraction_bits: 52 }
    }

    open spec fn datum(self) -> Datum {
        if self.bits >= SIGN_64 {
            Datum { negative: true, magnitude: (self.bits - SIGN_64) as nat }
        } else {
            Datum { negative: false, magnitude: self.bits as nat }
        }
    }

    open spec fn from_datum(d: Datum) -> Self {
        if d.negative {
            Binary64 { bits: (d.magnitude + SIGN_64) as u64 }
        } else {
            Binary64 { bits: d.magnitude as u64 }
        }
    }

    proof fn lemma_datum_in_format(self) {
        lemma_binary64_format();
    }

    proof fn lemma_from_own_datum(self) {
    }

    proof fn lemma_datum_of_from(d: Datum) {
        lemma_binary64_format();
    }

    fn zero() -> (r: Self) {
        Binary64 { bits: 0 }
    }

    fn one() -> (r: Self) {
        proof {
            lemma_binary64_format();
        }
        Binary64 { bits: ONE_64 }
    }

    fn negate(self) -> (r: Self) {
        let bits: u64 = self.bits;
        assert(bits ^ 0x8000_0000_0000_0000u64 == if bits >= 0x8000_0000_0000_0000u64 {
            (bits - 0x8000_0000_0000_0000u64) as u64
        } else {
            (bits + 0x8000_0000_0000_0000u64) as u64
        }) by (bit_vector);
        Binary64 { bits: bits ^ SIGN_64 }
    }

    fn magnitude(self) -> (r: Self) {
        let bits: u64 = self.bits;
        assert(bits & 0x7fff_ffff_ffff_ffffu64 == if bits >= 0x8000_0000_0000_0000u64 {
            (bits - 0x8000_0000_0000_0000u64) as u64
        } else {
            bits
        }) by (bit_vector);
        Binary64 { bits: bits & 0x7fff_ffff_ffff_ffff }
    }

    fn is_below_zero(self) -> (r: bool) {
        proof {
            lemma_binary64_format();
        }
        SIGN_64 < self.bits && self.bits <= SIGN_64 + INFINITY_64
    }

    fn equals(self, other: Self) -> (r: bool) {
        proof {
            lemma_binary64_format();
        }
        let a: u64 = self.magnitude().bits;
        let b: u64 = other.magnitude().bits;
        a <= INFINITY_64 && b <= INFINITY_64 && (self.bits == other.bits || (a == 0 && b == 0))
    }
}

} // verus!
