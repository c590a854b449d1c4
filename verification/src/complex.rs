//! The complex value: a pair of elements of one format.

use crate::datum::Datum;
use crate::element::{absolute, lemma_negated_twice, negated, Element};
use crate::text::{compose, display_form};
use vstd::prelude::*;

verus! {

/// A complex value `re + im·i`. The two parts are independent: nothing is
/// normalised, and any datum may stand in either.
#[derive(Copy, Debug)]
pub struct Complex<T: Element> {
    /// The real part.
    pub re: T,
    /// The imaginary part.
    pub im: T,
}

impl<T: Element> Complex<T> {
    /// The value `(0, 0)`, both zeros positive.
    pub open spec fn zero_value() -> Self {
        Complex { re: T::from_datum(Datum::zero()), im: T::from_datum(Datum::zero()) }
    }

    /// The value `(1, 0)`.
    pub open spec fn one_value() -> Self {
        Complex { re: T::from_datum(Datum::one(T::format())), im: T::from_datum(Datum::zero()) }
    }

    /// The value `(0, 1)`.
    pub open spec fn i_value() -> Self {
        Complex { re: T::from_datum(Datum::zero()), im: T::from_datum(Datum::one(T::format())) }
    }

    /// The value `(re, −im)`.
    pub open spec fn conjugated(self) -> Self {
        Complex { re: self.re, im: negated(self.im) }
    }

    /// The value `(−re, −im)`.
    pub open spec fn negation(self) -> Self {
        Complex { re: negated(self.re), im: negated(self.im) }
    }

    /// The value with the given parts.
    pub fn new(re: T, im: T) -> (r: Self)
        ensures
            r == (Complex { re, im }),
    {
        Complex { re, im }
    }

    /// The complex conjugate.
    pub fn conjugate(&self) -> (r: Self)
        ensures
            r == self.conjugated(),
    {
        let im = self.im.negate();
        proof {
            im.lemma_from_own_datum();
        }
        Complex { re: self.re, im }
    }

    /// Zero.
    pub fn zero() -> (r: Self)
        ensures
            r == Self::zero_value(),
    {
        let re = T::zero();
        let im = T::zero();
        proof {
            re.lemma_from_own_datum();
            im.lemma_from_own_datum();
        }
        Complex { re, im }
    }

    /// One.
    pub fn one() -> (r: Self)
        ensures
            r == Self::one_value(),
    {
        let re = T::one();
        let im = T::zero();
        proof {
            re.lemma_from_own_datum();
            im.lemma_from_own_datum();
        }
        Complex { re, im }
    }

    /// The imaginary unit.
    pub fn i() -> (r: Self)
        ensures
            r == Self::i_value(),
    {
        let re = T::zero();
        let im = T::one();
        proof {
            re.lemma_from_own_datum();
            im.lemma_from_own_datum();
        }
        Complex { re, im }
    }

    /// The display form, with the two numbers rendered by `render`: the real
    /// part as it is, then ` + ` or ` - ` by the sign rule, then the magnitude
    /// of the imaginary part, then `i`. The separator is ` - ` only where the
    /// imaginary part is ordered below zero, so a zero of either sign and a
    /// NaN take ` + `.
    pub fn format_with<F: Fn(T) -> String>(&self, render: F) -> (r: String)
        requires
            render.requires((self.re,)),
            render.requires((absolute(self.im),)),
        ensures
            exists|re: String, im: String|
                {
                    &&& #[trigger] render.ensures((self.re,), re)
                    &&& #[trigger] render.ensures((absolute(self.im),), im)
                    &&& r@ == display_form(re@, self.im.datum().below_zero(T::format()), im@)
                },
    {
        let magnitude = self.im.magnitude();
        proof {
            magnitude.lemma_from_own_datum();
        }
        let re = render(self.re);
        let im = render(magnitude);
        compose(re.as_str(), self.im.is_below_zero(), im.as_str())
    }
}

impl<T: Element> Clone for Complex<T> {
    /// A copy of the value.
    fn clone(&self) -> (r: Self)
        ensures
            r == *self,
    {
        *self
    }
}

impl<T: Element> core::ops::Neg for Complex<T> {
    type Output = Complex<T>;

    /// The value with both parts negated.
    fn neg(self) -> (r: Complex<T>)
        ensures
            r == self.negation(),
    {
        let re = self.re.negate();
        let im = self.im.negate();
        proof {
            re.lemma_from_own_datum();
            im.lemma_from_own_datum();
        }
        Complex { re, im }
    }
}

impl<T: Element> vstd::std_specs::ops::NegSpecImpl for Complex<T> {
    open spec fn obeys_neg_spec() -> bool {
        true
    }

    open spec fn neg_req(self) -> bool {
        true
    }

    open spec fn neg_spec(self) -> Complex<T> {
        self.negation()
    }
}

impl<T: Element> PartialEq for Complex<T> {
    /// Whether the real parts are numerically equal and the imaginary parts
    /// are: a value with a NaN part equals nothing, itself included.
    fn eq(&self, other: &Self) -> (r: bool) {
        self.re.equals(other.re) && self.im.equals(other.im)
    }
}

impl<T: Element> vstd::std_specs::cmp::PartialEqSpecImpl for Complex<T> {
    open spec fn obeys_eq_spec() -> bool {
        true
    }

    open spec fn eq_spec(&self, other: &Self) -> bool {
        &&& self.re.datum().equals(other.re.datum(), T::format())
        &&& self.im.datum().equals(other.im.datum(), T::format())
    }
}

/// Conjugating twice gives the value back, whatever its parts hold.
pub proof fn lemma_conjugate_involution<T: Element>(a: Complex<T>)
    ensures
        a.conjugated().conjugated() == a,
{
    lemma_negated_twice(a.im);
}

} // verus!
