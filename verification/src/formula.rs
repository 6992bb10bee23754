//! Arithmetic on binary64 numbers, written down rather than carried out.
//!
//! A formula names numbers and the operations to apply to them. To evaluate
//! one is to evaluate the operands of its outermost operation, the left one
//! first, and then to apply that operation in binary64 arithmetic. The shape
//! of a formula therefore fixes the order in which roundings happen.
//!
//! The library builds formulas and does not evaluate them. What it proves of
//! a formula's value holds in every [`Arithmetic`]: whatever the five
//! operations give, as long as each gives one result for one pair of
//! operands.

use vstd::prelude::*;
use crate::binary64::Binary64;

verus! {

/// A formula.
#[derive(Debug, PartialEq, Eq)]
pub enum Formula {
    /// A number as it stands.
    Number(Binary64),
    /// The first plus the second.
    Sum(Box<Formula>, Box<Formula>),
    /// The first less the second.
    Difference(Box<Formula>, Box<Formula>),
    /// The first times the second.
    Product(Box<Formula>, Box<Formula>),
    /// The first over the second.
    Quotient(Box<Formula>, Box<Formula>),
    /// The first raised to the power of the second.
    Power(Box<Formula>, Box<Formula>),
}

/// An arithmetic on binary64 numbers: what each operation gives for a first
/// and a second operand.
pub struct Arithmetic {
    pub sum: spec_fn(Binary64, Binary64) -> Binary64,
    pub difference: spec_fn(Binary64, Binary64) -> Binary64,
    pub product: spec_fn(Binary64, Binary64) -> Binary64,
    pub quotient: spec_fn(Binary64, Binary64) -> Binary64,
    pub power: spec_fn(Binary64, Binary64) -> Binary64,
}

impl Formula {
    /// The value of the formula in the given arithmetic.
    pub open spec fn value(self, arithmetic: Arithmetic) -> Binary64
        decreases self,
    {
        match self {
            Formula::Number(x) => x,
            Formula::Sum(a, b) => (arithmetic.sum)(a.value(arithmetic), b.value(arithmetic)),
            Formula::Difference(a, b) => (arithmetic.difference)(
                a.value(arithmetic),
                b.value(arithmetic),
            ),
            Formula::Product(a, b) => (arithmetic.product)(
                a.value(arithmetic),
                b.value(arithmetic),
            ),
            Formula::Quotient(a, b) => (arithmetic.quotient)(
                a.value(arithmetic),
                b.value(arithmetic),
            ),
            Formula::Power(a, b) => (arithmetic.power)(a.value(arithmetic), b.value(arithmetic)),
        }
    }

    /// The number `x`.
    pub open spec fn spec_number(x: Binary64) -> Formula {
        Formula::Number(x)
    }

    /// `self + other`.
    pub open spec fn spec_plus(self, other: Formula) -> Formula {
        Formula::Sum(Box::new(self), Box::new(other))
    }

    /// `self - other`.
    pub open spec fn spec_minus(self, other: Formula) -> Formula {
        Formula::Difference(Box::new(self), Box::new(other))
    }

    /// `self * other`.
    pub open spec fn spec_times(self, other: Formula) -> Formula {
        Formula::Product(Box::new(self), Box::new(other))
    }

    /// `self / other`.
    pub open spec fn spec_over(self, other: Formula) -> Formula {
        Formula::Quotient(Box::new(self), Box::new(other))
    }

    /// `self` raised to `exponent`.
    pub open spec fn spec_to_the(self, exponent: Formula) -> Formula {
        Formula::Power(Box::new(self), Box::new(exponent))
    }

    /// `self` as a percentage: `self * 100`.
    pub open spec fn spec_percent(self) -> Formula {
        self.spec_times(Formula::Number(Binary64::whole(100)))
    }

    /// The number `x`.
    #[verifier::when_used_as_spec(spec_number)]
    pub fn number(x: Binary64) -> (r: Formula)
        ensures
            r == Formula::spec_number(x),
    {
        Formula::Number(x)
    }

    /// `self + other`.
    #[verifier::when_used_as_spec(spec_plus)]
    pub fn plus(self, other: Formula) -> (r: Formula)
        ensures
            r == self.spec_plus(other),
    {
        Formula::Sum(Box::new(self), Box::new(other))
    }

    /// `self - other`.
    #[verifier::when_used_as_spec(spec_minus)]
    pub fn minus(self, other: Formula) -> (r: Formula)
        ensures
            r == self.spec_minus(other),
    {
        Formula::Difference(Box::new(self), Box::new(other))
    }

    /// `self * other`.
    #[verifier::when_used_as_spec(spec_times)]
    pub fn times(self, other: Formula) -> (r: Formula)
        ensures
            r == self.spec_times(other),
    {
        Formula::Product(Box::new(self), Box::new(other))
    }

    /// `self / other`.
    #[verifier::when_used_as_spec(spec_over)]
    pub fn over(self, other: Formula) -> (r: Formula)
        ensures
            r == self.spec_over(other),
    {
        Formula::Quotient(Box::new(self), Box::new(other))
    }

    /// `self` raised to `exponent`.
    #[verifier::when_used_as_spec(spec_to_the)]
    pub fn to_the(self, exponent: Formula) -> (r: Formula)
        ensures
            r == self.spec_to_the(exponent),
    {
        Formula::Power(Box::new(self), Box::new(exponent))
    }

    /// `self` as a percentage: `self * 100`.
    #[verifier::when_used_as_spec(spec_percent)]
    pub fn percent(self) -> (r: Formula)
        ensures
            r == self.spec_percent(),
    {
        self.times(Formula::number(Binary64::hundred()))
    }
}

} // verus!
