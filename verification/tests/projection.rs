//! The projection's bookkeeping.

use wb_valuation::binary64::Binary64;
use wb_valuation::formula::Formula;
use wb_valuation::projection::{intrinsic_value, present_value, Projection};

fn number(x: f64) -> Binary64 {
    Binary64::from_bits(x.to_bits())
}

fn year_of(next_total: &Formula) -> f64 {
    // The exponent of the discount factor of the present value that is added.
    match next_total {
        Formula::Sum(_, present_value) => match &**present_value {
            Formula::Quotient(_, discount) => match &**discount {
                Formula::Power(_, exponent) => match &**exponent {
                    Formula::Number(x) => f64::from_bits(x.to_bits()),
                    other => panic!("no number: {other:?}"),
                },
                other => panic!("no power: {other:?}"),
            },
            other => panic!("no quotient: {other:?}"),
        },
        other => panic!("no sum: {other:?}"),
    }
}

#[test]
fn starts_at_zero_before_the_first_year() {
    let state = intrinsic_value(number(1000.0), number(0.05), number(0.1), 10);
    assert_eq!(state.initial_owners_earnings, number(1000.0));
    assert_eq!(state.growth_rate, number(0.05));
    assert_eq!(state.discount_rate, number(0.1));
    assert_eq!(state.years, 10);
    assert_eq!(state.discounted, 0);
    assert_eq!(state.total().to_bits(), 0);
    assert_eq!(year_of(&state.next_total().unwrap()), 1.0);
}

#[test]
fn no_years_are_complete_at_once() {
    let mut state = intrinsic_value(number(1000.0), number(0.05), number(-1.0), 0);
    assert!(state.next_total().is_none());
    assert_eq!(state.total().to_bits(), 0);
    state.accumulate(number(1.0));
    assert_eq!(state.discounted, 0);
    assert_eq!(state.total().to_bits(), 0);
}

#[test]
fn years_come_once_each_in_ascending_order() {
    let mut state = intrinsic_value(number(1000.0), number(0.05), number(0.1), 40);
    let mut seen = Vec::new();
    while let Some(next_total) = state.next_total() {
        let year = year_of(&next_total);
        seen.push(year);
        state.accumulate(number(year * 0.5));
        assert_eq!(state.total(), number(year * 0.5));
    }
    assert_eq!(seen, (1..=40).map(f64::from).collect::<Vec<f64>>());
    assert_eq!(state.discounted, 40);
}

#[test]
fn a_complete_projection_stays_as_it_is() {
    let mut state = intrinsic_value(number(1000.0), number(0.05), number(0.1), 2);
    state.accumulate(number(10.0));
    state.accumulate(number(30.0));
    assert!(state.next_total().is_none());
    state.accumulate(number(70.0));
    assert_eq!(state.discounted, 2);
    assert_eq!(state.years, 2);
    assert_eq!(state.total(), number(30.0));
}

#[test]
fn the_last_year_of_the_longest_projection_does_not_wrap() {
    let mut state = Projection {
        initial_owners_earnings: number(1000.0),
        growth_rate: number(0.05),
        discount_rate: number(0.1),
        years: u32::MAX,
        discounted: u32::MAX - 1,
        total: number(5.0),
    };
    let next_total = state.next_total().unwrap();
    assert_eq!(year_of(&next_total), 4294967295.0);
    assert_eq!(
        next_total,
        Formula::Sum(
            Box::new(Formula::Number(number(5.0))),
            Box::new(present_value(number(1000.0), number(0.05), number(0.1), u32::MAX))
        )
    );
    state.accumulate(number(6.0));
    assert_eq!(state.discounted, u32::MAX);
    assert!(state.next_total().is_none());
    assert_eq!(state.total(), number(6.0));
}
