//! Event data models.

use vstd::prelude::*;

verus! {

/// A candlestick data point for event forecast history.
#[derive(Debug, PartialEq)]
pub struct Candlestick {
    /// The timestamp for this candlestick period.
    pub ts: String,
    /// Opening price for the period.
    pub open: Option<i64>,
    /// Highest price during the period.
    pub high: Option<i64>,
    /// Lowest price during the period.
    pub low: Option<i64>,
    /// Closing price for the period.
    pub close: Option<i64>,
    /// Trading volume during the period.
    pub volume: Option<i64>,
}

} // verus!
