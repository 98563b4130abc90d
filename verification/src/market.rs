//! Market data models: candles, snapshots, trades, settlement and status
//! enumerations.

use vstd::prelude::*;

verus! {

/// A candlestick data point: open, high, low and close prices for both
/// sides of a market over one period.
#[derive(Debug, PartialEq)]
pub struct Candle {
    pub start_ts: i64,
    pub end_ts: i64,
    pub yes_open: i32,
    pub yes_high: i32,
    pub yes_low: i32,
    pub yes_close: i32,
    pub no_open: i32,
    pub no_high: i32,
    pub no_low: i32,
    pub no_close: i32,
    pub volume: i64,
    pub open_interest: i64,
}

/// A market summary at one point in time: prices, volume and open
/// interest.
#[derive(Debug, PartialEq)]
pub struct Snapshot {
    pub yes_price: i32,
    pub yes_bid: i32,
    pub yes_ask: i32,
    pub no_bid: i32,
    pub no_ask: i32,
    pub volume: i32,
    pub open_interest: i32,
    pub ts: i64,
}

/// A completed transaction between a buyer and a seller.
#[derive(Debug, PartialEq)]
pub struct Trade {
    pub trade_id: String,
    pub taker_side: String,
    pub ticker: String,
    pub count: i32,
    pub yes_price: i32,
    pub no_price: i32,
    pub created_time: String,
}

/// How a market settled.
#[derive(Debug, Clone, Copy, PartialEq, Eq, Structural)]
pub enum SettlementResult {
    Yes,
    No,
    Void,
    AllNo,
    AllYes,
}

/// Where a market stands in its lifecycle.
#[derive(Debug, Clone, Copy, PartialEq, Eq, Structural)]
pub enum MarketStatus {
    Open,
    Closed,
    Settled,
}

/// Filter for multivariate events (MVE) in market queries.
#[derive(Debug, Clone, Copy, PartialEq, Eq, Structural)]
pub enum MveFilter {
    /// Only include markets that are part of multivariate events.
    Only,
    /// Exclude markets that are part of multivariate events.
    Exclude,
}

/// Candlestick data for one market in a batch response.
#[derive(Debug, PartialEq)]
pub struct MarketCandlesticks {
    /// The market ticker identifier.
    pub ticker: String,
    /// The candlestick data for this market.
    pub candlesticks: Vec<Candle>,
}

/// A settlement source for a series: the data or methodology used to
/// determine the final outcome of its markets.
#[derive(Debug, PartialEq)]
pub struct SettlementSource {
    pub url: Option<String>,
    pub name: Option<String>,
}

} // verus!
