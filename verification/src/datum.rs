//! The mathematical model of a floating-point datum: a sign and a magnitude,
//! read against the parameters of a binary interchange format.

use vstd::arithmetic::power2::pow2;
use vstd::prelude::*;

verus! {

/// The parameters of a binary interchange format: the widths of the biased
/// exponent field and of the trailing significand (fraction) field. One sign
/// bit stands above the two.
pub struct Format {
    pub exponent_bits: nat,
    pub fraction_bits: nat,
}

/// A datum of some format: its sign bit, and the number that the exponent and
/// fraction fields spell when read together as one unsigned integer.
pub struct Datum {
    pub negative: bool,
    pub magnitude: nat,
}

impl Format {
    /// The weight of the sign bit; every magnitude of the format lies below it.
    pub open spec fn sign_weight(self) -> nat {
        pow2(self.exponent_bits + self.fraction_bits)
    }

    /// The exponent bias.
    pub open spec fn bias(self) -> nat
        recommends
            self.exponent_bits >= 1,
    {
        (pow2((self.exponent_bits - 1) as nat) - 1) as nat
    }

    /// The magnitude of the two infinities: the exponent field all ones, the
    /// fraction zero. Every larger magnitude of the format is a NaN.
    pub open spec fn infinity(self) -> nat {
        ((pow2(self.exponent_bits) - 1) * pow2(self.fraction_bits)) as nat
    }

    /// The magnitude of the number one: the exponent field equal to the bias,
    /// the fraction zero.
    pub open spec fn unit(self) -> nat
        recommends
            self.exponent_bits >= 1,
    {
        self.bias() * pow2(self.fraction_bits)
    }

    /// Whether `d` is a datum of this format.
    pub open spec fn holds(self, d: Datum) -> bool {
        d.magnitude < self.sign_weight()
    }
}

impl Datum {
    /// Positive zero.
    pub open spec fn zero() -> Datum {
        Datum { negative: false, magnitude: 0 }
    }

    /// The number one of format `f`.
    pub open spec fn one(f: Format) -> Datum {
        Datum { negative: false, magnitude: f.unit() }
    }

    /// Either zero: the sign does not count.
    pub open spec fn is_zero(self) -> bool {
        self.magnitude == 0
    }

    /// Not a number, in format `f`: the sign does not count.
    pub open spec fn is_nan(self, f: Format) -> bool {
        self.magnitude > f.infinity()
    }

    /// The datum with the other sign and the same magnitude. This is negation
    /// for every datum, a NaN included.
    pub open spec fn negated(self) -> Datum {
        Datum { negative: !self.negative, magnitude: self.magnitude }
    }

    /// The datum with the sign cleared and the same magnitude.
    pub open spec fn absolute(self) -> Datum {
        Datum { negative: false, magnitude: self.magnitude }
    }

    /// Ordered strictly below zero: negative, and neither a zero nor a NaN.
    pub open spec fn below_zero(self, f: Format) -> bool {
        self.negative && !self.is_zero() && !self.is_nan(f)
    }

    /// Numerical equality: no NaN equals anything, the two zeros equal each
    /// other, and otherwise two data are equal when they are the same datum.
    pub open spec fn equals(self, other: Datum, f: Format) -> bool {
        &&& !self.is_nan(f)
        &&& !other.is_nan(f)
        &&& (self == other || (self.is_zero() && other.is_zero()))
    }
}

} // verus!
