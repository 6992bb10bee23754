//! Fundamental-analysis valuation metrics over binary64 numbers.
//!
//! For each metric the library says whether it is defined for its inputs and,
//! where it is, which arithmetic gives it: a [`formula::Formula`] over the
//! inputs. Carrying a formula out is floating-point arithmetic and is left to
//! the caller.
//!
//! A metric whose divisor is an input is decided in one call. Where the
//! divisor has to be computed first, or a total is built up year by year, the
//! caller evaluates one formula and hands its value back for the next.

pub mod binary64;
pub mod formula;
pub mod metrics;
pub mod projection;
