//! Communications data models: RFQ and quote responses.

use vstd::prelude::*;

verus! {

/// Response from creating a new RFQ.
#[derive(Debug, PartialEq)]
pub struct CreateRfqResponse {
    /// The ID of the newly created RFQ.
    pub id: String,
}

/// Response from creating a new quote.
#[derive(Debug, PartialEq)]
pub struct CreateQuoteResponse {
    /// The ID of the newly created quote.
    pub id: String,
}

/// A confirmed quote.
#[derive(Debug, PartialEq)]
pub struct QuoteConfirmed {
    /// The quote ID.
    pub quote_id: String,
    /// The status after confirmation.
    pub status: String,
    /// The fill ID if the trade was completed.
    pub fill_id: Option<String>,
}

} // verus!
