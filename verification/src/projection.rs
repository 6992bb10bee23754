//! The discounted cash-flow projection behind the intrinsic value.
//!
//! The intrinsic value over a number of years is the total of the present
//! values of the owner's earnings of each year. The earnings of year `t` are
//! the initial ones times one plus the growth rate to the power `t`; their
//! present value is those earnings over one plus the discount rate to the
//! power `t`. The years are taken in ascending order, from one to the last,
//! and each present value is added to the running total as it comes: the
//! order of the additions is part of the result.
//!
//! A projection keeps count of the years and holds the running total. For
//! each year it gives the formula of the next total; the caller evaluates it
//! and hands the value back.

use vstd::prelude::*;
use crate::binary64::Binary64;
use crate::formula::{Arithmetic, Formula};

verus! {

/// The present value of the owner's earnings of one year:
/// `initial_owners_earnings * (1 + growth_rate) ^ year / (1 + discount_rate) ^
/// year`, the product taken before the quotient.
pub open spec fn spec_present_value(
    initial_owners_earnings: Binary64,
    growth_rate: Binary64,
    discount_rate: Binary64,
    year: u32,
) -> Formula {
    let one = Formula::number(Binary64::whole(1));
    let t = Formula::number(Binary64::whole(year as nat));
    let future_earnings = Formula::number(initial_owners_earnings).times(
        one.plus(Formula::number(growth_rate)).to_the(t),
    );
    future_earnings.over(one.plus(Formula::number(discount_rate)).to_the(t))
}

/// The present value of the owner's earnings of one year. No rate is turned
/// away: one plus a discount rate of minus one is a divisor like any other.
#[verifier::when_used_as_spec(spec_present_value)]
pub fn present_value(
    initial_owners_earnings: Binary64,
    growth_rate: Binary64,
    discount_rate: Binary64,
    year: u32,
) -> (r: Formula)
    ensures
        r == spec_present_value(initial_owners_earnings, growth_rate, discount_rate, year),
{
    let t = Binary64::from_u32(year);
    let growth = Formula::number(Binary64::one()).plus(Formula::number(growth_rate));
    let discount = Formula::number(Binary64::one()).plus(Formula::number(discount_rate));
    let future_earnings = Formula::number(initial_owners_earnings).times(
        growth.to_the(Formula::number(t)),
    );
    future_earnings.over(discount.to_the(Formula::number(t)))
}

/// A projection under way.
#[derive(Clone, Copy, Debug, PartialEq, Eq, Structural)]
pub struct Projection {
    /// The owner's earnings that the growth starts from.
    pub initial_owners_earnings: Binary64,
    /// The yearly growth of the earnings, as a fraction.
    pub growth_rate: Binary64,
    /// The yearly discount, as a fraction.
    pub discount_rate: Binary64,
    /// How many years the projection runs over.
    pub years: u32,
    /// How many of them are in the running total: the years from one to this.
    pub discounted: u32,
    /// The running total.
    pub total: Binary64,
}

impl Projection {
    /// No more years are in the total than the projection runs over.
    pub open spec fn wf(self) -> bool {
        self.discounted <= self.years
    }

    /// Whether every year is in the total.
    pub open spec fn is_complete(self) -> bool {
        self.discounted >= self.years
    }

    /// The formula of the total with the next year in: the running total plus
    /// that year's present value.
    pub open spec fn spec_next_total(&self) -> Option<Formula> {
        if self.is_complete() {
            None
        } else {
            Some(
                Formula::number(self.total).plus(
                    present_value(
                        self.initial_owners_earnings,
                        self.growth_rate,
                        self.discount_rate,
                        (self.discounted + 1) as u32,
                    ),
                ),
            )
        }
    }

    /// The projection once the next year is in and the total has become
    /// `total`. A complete projection stays as it is.
    pub open spec fn spec_accumulate(self, total: Binary64) -> Projection {
        if self.is_complete() {
            self
        } else {
            Projection { discounted: (self.discounted + 1) as u32, total, ..self }
        }
    }

    /// The projection after `steps` steps in the given arithmetic. A step
    /// evaluates the formula of the next total and takes the year in.
    pub open spec fn run(self, arithmetic: Arithmetic, steps: nat) -> Projection
        decreases steps,
    {
        if steps == 0 {
            self
        } else {
            let before = self.run(arithmetic, (steps - 1) as nat);
            match before.next_total() {
                Some(next_total) => before.spec_accumulate(next_total.value(arithmetic)),
                None => before,
            }
        }
    }

    /// The formula of the total with the next year in, where a year is left.
    #[verifier::when_used_as_spec(spec_next_total)]
    pub fn next_total(&self) -> (r: Option<Formula>)
        ensures
            r == self.spec_next_total(),
            r is None <==> self.is_complete(),
    {
        if self.discounted < self.years {
            Some(
                Formula::number(self.total).plus(
                    present_value(
                        self.initial_owners_earnings,
                        self.growth_rate,
                        self.discount_rate,
                        self.discounted + 1,
                    ),
                ),
            )
        } else {
            None
        }
    }

    /// Takes the next year in: `total` is the value of the formula that
    /// [`Projection::next_total`] gave. A complete projection stays as it is.
    pub fn accumulate(&mut self, total: Binary64)
        ensures
            *final(self) == old(self).spec_accumulate(total),
            old(self).wf() ==> final(self).wf(),
    {
        if self.discounted < self.years {
            self.discounted = self.discounted + 1;
            self.total = total;
        }
    }

    /// The running total; of a complete projection, the intrinsic value.
    pub fn total(&self) -> (total: Binary64)
        ensures
            total == self.total,
    {
        self.total
    }
}

/// The projection that gives the intrinsic value over `years`, before its
/// first year: nothing is in the total, which is zero.
pub open spec fn spec_intrinsic_value(
    initial_owners_earnings: Binary64,
    growth_rate: Binary64,
    discount_rate: Binary64,
    years: u32,
) -> Projection {
    Projection {
        initial_owners_earnings,
        growth_rate,
        discount_rate,
        years,
        discounted: 0,
        total: Binary64::whole(0),
    }
}

/// Starts the projection that gives the intrinsic value over `years`. Its
/// total is zero. Over no years it is complete at once, so that zero is the
/// intrinsic value whatever the earnings and the rates are.
#[verifier::when_used_as_spec(spec_intrinsic_value)]
pub fn intrinsic_value(
    initial_owners_earnings: Binary64,
    growth_rate: Binary64,
    discount_rate: Binary64,
    years: u32,
) -> (projection: Projection)
    ensures
        projection == spec_intrinsic_value(
            initial_owners_earnings,
            growth_rate,
            discount_rate,
            years,
        ),
        projection.wf(),
        projection.total.bits == 0,
        years == 0 ==> projection.is_complete(),
{
    Projection {
        initial_owners_earnings,
        growth_rate,
        discount_rate,
        years,
        discounted: 0,
        total: Binary64::zero(),
    }
}

/// The intrinsic value over `years` in the given arithmetic: zero, and onto
/// it the present values of the years from one to `years`, one after the
/// other in ascending order.
pub open spec fn total_over(
    arithmetic: Arithmetic,
    initial_owners_earnings: Binary64,
    growth_rate: Binary64,
    discount_rate: Binary64,
    years: nat,
) -> Binary64
    decreases years,
{
    if years == 0 {
        Binary64::whole(0)
    } else {
        (arithmetic.sum)(
            total_over(
                arithmetic,
                initial_owners_earnings,
                growth_rate,
                discount_rate,
                (years - 1) as nat,
            ),
            present_value(
                initial_owners_earnings,
                growth_rate,
                discount_rate,
                years as u32,
            ).value(arithmetic),
        )
    }
}

/// A projection that is run in one arithmetic takes a year in with each step,
/// in ascending order, and holds the intrinsic value over the years that are
/// in. After as many steps as it has years it is complete, not before, and
/// holds the intrinsic value over all of them. Over no years that is zero,
/// in every arithmetic and whatever the earnings and the rates are.
pub proof fn lemma_run_gives_intrinsic_value(
    arithmetic: Arithmetic,
    initial_owners_earnings: Binary64,
    growth_rate: Binary64,
    discount_rate: Binary64,
    years: u32,
    steps: nat,
)
    requires
        steps <= years,
    ensures
        ({
            let begun = intrinsic_value(initial_owners_earnings, growth_rate, discount_rate, years);
            let now = begun.run(arithmetic, steps);
            &&& now == Projection {
                discounted: steps as u32,
                total: total_over(
                    arithmetic,
                    initial_owners_earnings,
                    growth_rate,
                    discount_rate,
                    steps,
                ),
                ..begun
            }
            &&& now.is_complete() <==> steps == years
            &&& steps == 0 ==> now.total == Binary64::whole(0)
        }),
    decreases steps,
{
    if steps > 0 {
        lemma_run_gives_intrinsic_value(
            arithmetic,
            initial_owners_earnings,
            growth_rate,
            discount_rate,
            years,
            (steps - 1) as nat,
        );
        let before = intrinsic_value(
            initial_owners_earnings,
            growth_rate,
            discount_rate,
            years,
        ).run(arithmetic, (steps - 1) as nat);
        assert(Formula::number(before.total).value(arithmetic) == before.total);
        assert(before.next_total().unwrap().value(arithmetic) == total_over(
            arithmetic,
            initial_owners_earnings,
            growth_rate,
            discount_rate,
            steps,
        ));
    }
}

} // verus!
