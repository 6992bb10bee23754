//! The shape of the formulas: which operation is applied to what, in which
//! order.

use wb_valuation::binary64::Binary64;
use wb_valuation::formula::Formula;
use wb_valuation::metrics;
use wb_valuation::projection;

fn number(x: f64) -> Binary64 {
    Binary64::from_bits(x.to_bits())
}

fn leaf(x: f64) -> Box<Formula> {
    Box::new(Formula::Number(number(x)))
}

#[test]
fn builders_nest_left_to_right() {
    let a = || Formula::number(number(2.0));
    let b = || Formula::number(number(3.0));
    assert_eq!(a(), Formula::Number(Binary64 { bits: 0x4000_0000_0000_0000 }));
    assert_eq!(a().plus(b()), Formula::Sum(leaf(2.0), leaf(3.0)));
    assert_eq!(a().minus(b()), Formula::Difference(leaf(2.0), leaf(3.0)));
    assert_eq!(a().times(b()), Formula::Product(leaf(2.0), leaf(3.0)));
    assert_eq!(a().over(b()), Formula::Quotient(leaf(2.0), leaf(3.0)));
    assert_eq!(a().to_the(b()), Formula::Power(leaf(2.0), leaf(3.0)));
    assert_eq!(a().percent(), Formula::Product(leaf(2.0), leaf(100.0)));
    assert_eq!(
        a().plus(b()).times(a()),
        Formula::Product(Box::new(Formula::Sum(leaf(2.0), leaf(3.0))), leaf(2.0))
    );
    assert_ne!(a().minus(b()), b().minus(a()));
}

#[test]
fn owners_earnings_is_a_sum_less_the_capex() {
    assert_eq!(
        metrics::owners_earnings(number(1000.0), number(200.0), number(150.0)),
        Formula::Difference(Box::new(Formula::Sum(leaf(1000.0), leaf(200.0))), leaf(150.0))
    );
}

#[test]
fn percentages_multiply_the_quotient_by_one_hundred() {
    let expected =
        Formula::Product(Box::new(Formula::Quotient(leaf(500.0), leaf(2000.0))), leaf(100.0));
    assert_eq!(metrics::return_on_equity(number(500.0), number(2000.0)), Some(expected));
    let expected =
        Formula::Product(Box::new(Formula::Quotient(leaf(500.0), leaf(1500.0))), leaf(100.0));
    assert_eq!(
        metrics::return_on_net_tangible_assets(number(500.0), number(1500.0)),
        Some(expected)
    );
    assert_eq!(metrics::return_on_equity(number(500.0), number(0.0)), None);
    assert_eq!(metrics::return_on_net_tangible_assets(number(500.0), number(-0.0)), None);
}

#[test]
fn net_tangible_assets_take_liabilities_off_first() {
    assert_eq!(
        metrics::net_tangible_assets(number(3000.0), number(1000.0), number(500.0)),
        Formula::Difference(
            Box::new(Formula::Difference(leaf(3000.0), leaf(1000.0))),
            leaf(500.0)
        )
    );
}

#[test]
fn plain_quotients_divide_the_first_by_the_second() {
    assert_eq!(
        metrics::debt_to_equity(number(1000.0), number(2000.0)),
        Some(Formula::Quotient(leaf(1000.0), leaf(2000.0)))
    );
    assert_eq!(
        metrics::earnings_per_share(number(1000.0), number(100.0)),
        Some(Formula::Quotient(leaf(1000.0), leaf(100.0)))
    );
    assert_eq!(
        metrics::intrinsic_value_per_share(number(7811.80275662085), number(100.0)),
        Some(Formula::Quotient(leaf(7811.80275662085), leaf(100.0)))
    );
    assert_eq!(metrics::debt_to_equity(number(1000.0), number(0.0)), None);
    assert_eq!(metrics::earnings_per_share(number(1000.0), number(0.0)), None);
    assert_eq!(metrics::intrinsic_value_per_share(number(1000.0), number(0.0)), None);
}

#[test]
fn eps_cagr_raises_the_quotient_to_one_over_the_years() {
    let root = Formula::Power(
        Box::new(Formula::Quotient(leaf(14.641), leaf(10.0))),
        Box::new(Formula::Quotient(leaf(1.0), leaf(5.0))),
    );
    let expected =
        Formula::Product(Box::new(Formula::Difference(Box::new(root), leaf(1.0))), leaf(100.0));
    assert_eq!(metrics::eps_cagr(number(10.0), number(14.641), number(5.0)), Some(expected));
    assert_eq!(metrics::eps_cagr(number(0.0), number(14.641), number(5.0)), None);
    assert_eq!(metrics::eps_cagr(number(10.0), number(14.641), number(0.0)), None);
}

#[test]
fn present_value_grows_then_discounts() {
    let grown = Formula::Product(
        leaf(1000.0),
        Box::new(Formula::Power(Box::new(Formula::Sum(leaf(1.0), leaf(0.05))), leaf(7.0))),
    );
    let expected = Formula::Quotient(
        Box::new(grown),
        Box::new(Formula::Power(Box::new(Formula::Sum(leaf(1.0), leaf(0.1))), leaf(7.0))),
    );
    assert_eq!(projection::present_value(number(1000.0), number(0.05), number(0.1), 7), expected);
}

#[test]
fn next_total_adds_the_present_value_to_the_running_total() {
    let mut state = projection::intrinsic_value(number(1000.0), number(0.05), number(0.1), 2);
    assert_eq!(
        state.next_total(),
        Some(Formula::Sum(
            leaf(0.0),
            Box::new(projection::present_value(number(1000.0), number(0.05), number(0.1), 1))
        ))
    );
    state.accumulate(number(954.5));
    assert_eq!(
        state.next_total(),
        Some(Formula::Sum(
            leaf(954.5),
            Box::new(projection::present_value(number(1000.0), number(0.05), number(0.1), 2))
        ))
    );
    state.accumulate(number(1865.7));
    assert_eq!(state.next_total(), None);
}
