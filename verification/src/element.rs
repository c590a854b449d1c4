//! The element type of a complex value: a floating-point datum held by its
//! encoding, with the operations that are exact on the encoding.

use crate::datum::{Datum, Format};
use vstd::prelude::*;

verus! {

/// A type whose values are the data of one binary interchange format, each
/// held once: `datum` and `from_datum` are inverse to each other between the
/// type and the data of `format()`.
///
/// The operations are those that the encoding alone decides. Rounding
/// arithmetic is the host's and is no part of this trait.
pub trait Element: Copy {
    /// The format whose data the type holds.
    spec fn format() -> Format;

    /// The datum that a value holds.
    spec fn datum(self) -> Datum;

    /// The value that holds `d`.
    spec fn from_datum(d: Datum) -> Self;

    /// Every value holds a datum of the format.
    proof fn lemma_datum_in_format(self)
        ensures
            Self::format().holds(self.datum()),
    ;

    /// A value is the one that holds its own datum, so two values with the
    /// same datum are the same value.
    proof fn lemma_from_own_datum(self)
        ensures
            Self::from_datum(self.datum()) == self,
    ;

    /// Every datum of the format is held by a value.
    proof fn lemma_datum_of_from(d: Datum)
        requires
            Self::format().holds(d),
        ensures
            Self::from_datum(d).datum() == d,
    ;

    /// Positive zero.
    fn zero() -> (r: Self)
        ensures
            r.datum() == Datum::zero(),
    ;

    /// The number one.
    fn one() -> (r: Self)
        ensures
            r.datum() == Datum::one(Self::format()),
    ;

    /// The value with the other sign.
    fn negate(self) -> (r: Self)
        ensures
            r.datum() == self.datum().negated(),
    ;

    /// The value with the sign cleared.
    fn magnitude(self) -> (r: Self)
        ensures
            r.datum() == self.datum().absolute(),
    ;

    /// Whether the value is ordered strictly below zero. Neither zero is, and
    /// no NaN is.
    fn is_below_zero(self) -> (r: bool)
        ensures
            r == self.datum().below_zero(Self::format()),
    ;

    /// Whether two values are numerically equal.
    fn equals(self, other: Self) -> (r: bool)
        ensures
            r == self.datum().equals(other.datum(), Self::format()),
    ;
}

/// The value with the other sign, as the contracts speak of it.
pub open spec fn negated<T: Element>(x: T) -> T {
    T::from_datum(x.datum().negated())
}

/// The value with the sign cleared, as the contracts speak of it.
pub open spec fn absolute<T: Element>(x: T) -> T {
    T::from_datum(x.datum().absolute())
}

/// Negating twice gives the value back, whatever it holds.
pub proof fn lemma_negated_twice<T: Element>(x: T)
    ensures
        negated(negated(x)) == x,
{
    x.lemma_datum_in_format();
    T::lemma_datum_of_from(x.datum().negated());
    x.lemma_from_own_datum();
}

} // verus!
