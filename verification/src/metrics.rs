//! The single-period metrics and the growth rate.
//!
//! A metric that divides is undefined where its divisor equals zero, and only
//! there: the test is for zero itself, of either sign, with no tolerance
//! around it. The growth rate is also undefined over a span of years that is
//! zero or less. An undefined metric is `None`.

use vstd::prelude::*;
use crate::binary64::Binary64;
use crate::formula::{Arithmetic, Formula};
use crate::projection::{intrinsic_value, lemma_run_gives_intrinsic_value, total_over};

verus! {

/// Owner's earnings: `net_income + depreciation_amortization -
/// maintenance_capex`, the sum taken first.
pub open spec fn spec_owners_earnings(
    net_income: Binary64,
    depreciation_amortization: Binary64,
    maintenance_capex: Binary64,
) -> Formula {
    Formula::number(net_income).plus(Formula::number(depreciation_amortization)).minus(
        Formula::number(maintenance_capex),
    )
}

/// Owner's earnings: net income plus depreciation and amortization less the
/// capital expenditure that maintains the business. Always defined.
#[verifier::when_used_as_spec(spec_owners_earnings)]
pub fn owners_earnings(
    net_income: Binary64,
    depreciation_amortization: Binary64,
    maintenance_capex: Binary64,
) -> (r: Formula)
    ensures
        r == spec_owners_earnings(net_income, depreciation_amortization, maintenance_capex),
{
    Formula::number(net_income).plus(Formula::number(depreciation_amortization)).minus(
        Formula::number(maintenance_capex),
    )
}

/// Return on equity in percent: `(net_income / shareholders_equity) * 100`,
/// undefined where the equity is zero.
pub open spec fn spec_return_on_equity(net_income: Binary64, shareholders_equity: Binary64)
    -> Option<Formula> {
    if shareholders_equity@.is_zero() {
        None
    } else {
        Some(Formula::number(net_income).over(Formula::number(shareholders_equity)).percent())
    }
}

/// Return on equity in percent: net income over shareholders' equity, times
/// one hundred. Undefined where the equity is zero, whatever the income.
#[verifier::when_used_as_spec(spec_return_on_equity)]
pub fn return_on_equity(net_income: Binary64, shareholders_equity: Binary64) -> (r: Option<Formula>)
    ensures
        r == spec_return_on_equity(net_income, shareholders_equity),
        r is None <==> shareholders_equity@.is_zero(),
{
    if shareholders_equity.is_zero() {
        None
    } else {
        Some(Formula::number(net_income).over(Formula::number(shareholders_equity)).percent())
    }
}

/// Net tangible assets: `total_assets - total_liabilities -
/// intangible_assets`, the liabilities taken off first.
pub open spec fn spec_net_tangible_assets(
    total_assets: Binary64,
    total_liabilities: Binary64,
    intangible_assets: Binary64,
) -> Formula {
    Formula::number(total_assets).minus(Formula::number(total_liabilities)).minus(
        Formula::number(intangible_assets),
    )
}

/// Net tangible assets: total assets less total liabilities less intangible
/// assets. Always defined.
#[verifier::when_used_as_spec(spec_net_tangible_assets)]
pub fn net_tangible_assets(
    total_assets: Binary64,
    total_liabilities: Binary64,
    intangible_assets: Binary64,
) -> (r: Formula)
    ensures
        r == spec_net_tangible_assets(total_assets, total_liabilities, intangible_assets),
{
    Formula::number(total_assets).minus(Formula::number(total_liabilities)).minus(
        Formula::number(intangible_assets),
    )
}

/// Return on net tangible assets in percent: `(net_income /
/// net_tangible_assets) * 100`, undefined where the net tangible assets are
/// zero.
pub open spec fn spec_return_on_net_tangible_assets(
    net_income: Binary64,
    net_tangible_assets: Binary64,
) -> Option<Formula> {
    if net_tangible_assets@.is_zero() {
        None
    } else {
        Some(Formula::number(net_income).over(Formula::number(net_tangible_assets)).percent())
    }
}

/// Return on net tangible assets in percent: net income over the net tangible
/// assets, times one hundred. `net_tangible_assets` is the value of the
/// formula that [`net_tangible_assets`] gives. Undefined where that value is
/// zero. Only the difference is tested: one that cancellation has left close
/// to zero is a divisor like any other.
#[verifier::when_used_as_spec(spec_return_on_net_tangible_assets)]
pub fn return_on_net_tangible_assets(net_income: Binary64, net_tangible_assets: Binary64) -> (r:
    Option<Formula>)
    ensures
        r == spec_return_on_net_tangible_assets(net_income, net_tangible_assets),
        r is None <==> net_tangible_assets@.is_zero(),
{
    if net_tangible_assets.is_zero() {
        None
    } else {
        Some(Formula::number(net_income).over(Formula::number(net_tangible_assets)).percent())
    }
}

/// Debt to equity: `total_liabilities / shareholders_equity`, undefined where
/// the equity is zero.
pub open spec fn spec_debt_to_equity(total_liabilities: Binary64, shareholders_equity: Binary64)
    -> Option<Formula> {
    if shareholders_equity@.is_zero() {
        None
    } else {
        Some(Formula::number(total_liabilities).over(Formula::number(shareholders_equity)))
    }
}

/// Debt to equity: total liabilities over shareholders' equity. Undefined
/// where the equity is zero.
#[verifier::when_used_as_spec(spec_debt_to_equity)]
pub fn debt_to_equity(total_liabilities: Binary64, shareholders_equity: Binary64) -> (r: Option<
    Formula,
>)
    ensures
        r == spec_debt_to_equity(total_liabilities, shareholders_equity),
        r is None <==> shareholders_equity@.is_zero(),
{
    if shareholders_equity.is_zero() {
        None
    } else {
        Some(Formula::number(total_liabilities).over(Formula::number(shareholders_equity)))
    }
}

/// Earnings per share: `net_income / shares_outstanding`, undefined where no
/// share is outstanding.
pub open spec fn spec_earnings_per_share(net_income: Binary64, shares_outstanding: Binary64)
    -> Option<Formula> {
    if shares_outstanding@.is_zero() {
        None
    } else {
        Some(Formula::number(net_income).over(Formula::number(shares_outstanding)))
    }
}

/// Earnings per share: net income over the shares outstanding. Undefined
/// where no share is outstanding.
#[verifier::when_used_as_spec(spec_earnings_per_share)]
pub fn earnings_per_share(net_income: Binary64, shares_outstanding: Binary64) -> (r: Option<
    Formula,
>)
    ensures
        r == spec_earnings_per_share(net_income, shares_outstanding),
        r is None <==> shares_outstanding@.is_zero(),
{
    if shares_outstanding.is_zero() {
        None
    } else {
        Some(Formula::number(net_income).over(Formula::number(shares_outstanding)))
    }
}

/// Compound annual growth rate of earnings per share in percent:
/// `((final_eps / initial_eps) ^ (1 / years) - 1) * 100`, undefined where the
/// initial earnings are zero or `years` is zero or less.
pub open spec fn spec_eps_cagr(initial_eps: Binary64, final_eps: Binary64, years: Binary64)
    -> Option<Formula> {
    if initial_eps@.is_zero() || years@.is_non_positive() {
        None
    } else {
        let one = Formula::number(Binary64::whole(1));
        let growth = Formula::number(final_eps).over(Formula::number(initial_eps));
        Some(growth.to_the(one.over(Formula::number(years))).minus(one).percent())
    }
}

/// Compound annual growth rate of earnings per share in percent: the final
/// earnings over the initial ones, raised to one over `years`, less one, times
/// one hundred. Undefined where the initial earnings are zero or `years` is
/// zero or less. A span that is not a number is not zero or less, and a
/// quotient below zero is raised to the power like any other.
#[verifier::when_used_as_spec(spec_eps_cagr)]
pub fn eps_cagr(initial_eps: Binary64, final_eps: Binary64, years: Binary64) -> (r: Option<Formula>)
    ensures
        r == spec_eps_cagr(initial_eps, final_eps, years),
        r is None <==> initial_eps@.is_zero() || years@.is_non_positive(),
{
    if initial_eps.is_zero() || years.is_non_positive() {
        None
    } else {
        let growth = Formula::number(final_eps).over(Formula::number(initial_eps));
        let per_year = Formula::number(Binary64::one()).over(Formula::number(years));
        Some(growth.to_the(per_year).minus(Formula::number(Binary64::one())).percent())
    }
}

/// Intrinsic value per share: `intrinsic_value / shares_outstanding`,
/// undefined where no share is outstanding.
pub open spec fn spec_intrinsic_value_per_share(
    intrinsic_value: Binary64,
    shares_outstanding: Binary64,
) -> Option<Formula> {
    if shares_outstanding@.is_zero() {
        None
    } else {
        Some(Formula::number(intrinsic_value).over(Formula::number(shares_outstanding)))
    }
}

/// Intrinsic value per share: the intrinsic value over the shares
/// outstanding. `intrinsic_value` is the total of a complete
/// [`crate::projection::Projection`]. Undefined where no share is
/// outstanding.
#[verifier::when_used_as_spec(spec_intrinsic_value_per_share)]
pub fn intrinsic_value_per_share(intrinsic_value: Binary64, shares_outstanding: Binary64) -> (r:
    Option<Formula>)
    ensures
        r == spec_intrinsic_value_per_share(intrinsic_value, shares_outstanding),
        r is None <==> shares_outstanding@.is_zero(),
{
    if shares_outstanding.is_zero() {
        None
    } else {
        Some(Formula::number(intrinsic_value).over(Formula::number(shares_outstanding)))
    }
}

/// In every arithmetic, the return on net tangible assets of a company is
/// undefined where its total assets less its total liabilities less its
/// intangible assets are zero, and nowhere else; where it is defined it is
/// the net income over that difference, times one hundred.
pub proof fn lemma_return_on_net_tangible_assets(
    arithmetic: Arithmetic,
    net_income: Binary64,
    total_assets: Binary64,
    total_liabilities: Binary64,
    intangible_assets: Binary64,
)
    ensures
        ({
            let difference = (arithmetic.difference)(
                (arithmetic.difference)(total_assets, total_liabilities),
                intangible_assets,
            );
            let assets = net_tangible_assets(total_assets, total_liabilities, intangible_assets);
            let r = return_on_net_tangible_assets(net_income, assets.value(arithmetic));
            &&& assets.value(arithmetic) == difference
            &&& r is None <==> difference@.is_zero()
            &&& r matches Some(f) ==> f.value(arithmetic) == (arithmetic.product)(
                (arithmetic.quotient)(net_income, difference),
                Binary64::whole(100),
            )
        }),
{
    reveal_with_fuel(Formula::value, 3);
}

/// In every arithmetic, the intrinsic value per share is undefined where no
/// share is outstanding, and nowhere else; where it is defined it is the
/// intrinsic value, as the complete projection holds it, over the shares
/// outstanding.
pub proof fn lemma_intrinsic_value_per_share(
    arithmetic: Arithmetic,
    initial_owners_earnings: Binary64,
    growth_rate: Binary64,
    discount_rate: Binary64,
    years: u32,
    shares_outstanding: Binary64,
)
    ensures
        ({
            let value = total_over(
                arithmetic,
                initial_owners_earnings,
                growth_rate,
                discount_rate,
                years as nat,
            );
            let complete = intrinsic_value(
                initial_owners_earnings,
                growth_rate,
                discount_rate,
                years,
            ).run(arithmetic, years as nat);
            let r = intrinsic_value_per_share(complete.total, shares_outstanding);
            &&& complete.is_complete()
            &&& complete.total == value
            &&& r is None <==> shares_outstanding@.is_zero()
            &&& r matches Some(f) ==> f.value(arithmetic) == (arithmetic.quotient)(
                value,
                shares_outstanding,
            )
        }),
{
    lemma_run_gives_intrinsic_value(
        arithmetic,
        initial_owners_earnings,
        growth_rate,
        discount_rate,
        years,
        years as nat,
    );
    reveal_with_fuel(Formula::value, 2);
}

} // verus!
