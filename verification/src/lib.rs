//! Unit conversion and presentation rules for a current-weather summary.
//!
//! Every measurement is held in fixed point: a whole number of hundredths or
//! thousandths of its unit, so that each conversion is exact.

pub mod category;
pub mod clock;
pub mod compass;
pub mod decimal;
pub mod error;
pub mod report;
pub mod request;
pub mod units;
