//! Annual-cost analysis for a home solar-plus-battery installation.
//!
//! The library synthesizes missing hourly usage records from reference
//! datasets (gap imputation), simulates hour-by-hour battery dispatch to
//! compute the annual cost of a configuration, and sweeps capacity and
//! battery choices to find the cheapest one.
//!
//! All quantities are exact integers: energy in milli-kWh, money in
//! micro-dollars (costs) or whole dollars (installation prices), and the
//! solar-capacity multiplier as an integer fraction.  Reading the utility's
//! CSV exports and reporting results are left to the surrounding
//! application.
use vstd::prelude::*;

pub mod calendar;
pub mod capacity;
pub mod dispatch;
pub mod impute;
pub mod impute_check;
pub mod rates;
pub mod records;
pub mod sweep;

verus! {

} // verus!
