//! The closed set of subscribable channels and their wire names.

use vstd::prelude::*;
use crate::strings::str_eq;

verus! {

/// Available WebSocket subscription channels.
#[derive(Debug, Clone, Copy, PartialEq, Eq, Hash, Structural)]
pub enum Channel {
    /// Real-time orderbook updates (snapshots + deltas)
    OrderbookDelta,
    /// Market ticker updates (price, volume, open interest)
    Ticker,
    /// Public trade feed
    Trade,
    /// User fills (requires authentication)
    Fill,
    /// User market positions (requires authentication)
    MarketPosition,
    /// Market lifecycle events (created, activated, settled, etc.)
    MarketLifecycleV2,
    /// Event lifecycle events
    EventLifecycle,
    /// Multivariate market lookups
    Multivariate,
    /// RFQ and quote events (requires authentication)
    Communications,
}

/// The stable wire name of each channel, as the server spells it.
pub open spec fn spec_wire_name(c: Channel) -> Seq<char> {
    match c {
        Channel::OrderbookDelta => "orderbook_delta"@,
        Channel::Ticker => "ticker"@,
        Channel::Trade => "trade"@,
        Channel::Fill => "fill"@,
        Channel::MarketPosition => "market_position"@,
        Channel::MarketLifecycleV2 => "market_lifecycle_v2"@,
        Channel::EventLifecycle => "event_lifecycle"@,
        Channel::Multivariate => "multivariate"@,
        Channel::Communications => "communications"@,
    }
}

/// Which channel, if any, a wire name denotes; the inverse of
/// [`spec_wire_name`].
pub open spec fn spec_parse_channel(s: Seq<char>) -> Option<Channel> {
    if s == "orderbook_delta"@ {
        Some(Channel::OrderbookDelta)
    } else if s == "ticker"@ {
        Some(Channel::Ticker)
    } else if s == "trade"@ {
        Some(Channel::Trade)
    } else if s == "fill"@ {
        Some(Channel::Fill)
    } else if s == "market_position"@ {
        Some(Channel::MarketPosition)
    } else if s == "market_lifecycle_v2"@ {
        Some(Channel::MarketLifecycleV2)
    } else if s == "event_lifecycle"@ {
        Some(Channel::EventLifecycle)
    } else if s == "multivariate"@ {
        Some(Channel::Multivariate)
    } else if s == "communications"@ {
        Some(Channel::Communications)
    } else {
        None
    }
}

impl Channel {
    /// Returns true if this channel requires authentication.
    pub fn requires_auth(&self) -> (r: bool)
        ensures
            r == (*self is Fill || *self is MarketPosition || *self is Communications),
    {
        matches!(self, Channel::Fill | Channel::MarketPosition | Channel::Communications)
    }

    /// The channel's stable wire name, used in outbound commands and in the
    /// server's confirmations.
    pub fn wire_name(&self) -> (s: String)
        ensures
            s@ == spec_wire_name(*self),
    {
        match self {
            Channel::OrderbookDelta => String::from_str("orderbook_delta"),
            Channel::Ticker => String::from_str("ticker"),
            Channel::Trade => String::from_str("trade"),
            Channel::Fill => String::from_str("fill"),
            Channel::MarketPosition => String::from_str("market_position"),
            Channel::MarketLifecycleV2 => String::from_str("market_lifecycle_v2"),
            Channel::EventLifecycle => String::from_str("event_lifecycle"),
            Channel::Multivariate => String::from_str("multivariate"),
            Channel::Communications => String::from_str("communications"),
        }
    }
}

/// Parses a channel string back to a Channel enum.
pub fn parse_channel(channel_str: &str) -> (r: Option<Channel>)
    ensures
        r == spec_parse_channel(channel_str@),
{
    if str_eq(channel_str, "orderbook_delta") {
        Some(Channel::OrderbookDelta)
    } else if str_eq(channel_str, "ticker") {
        Some(Channel::Ticker)
    } else if str_eq(channel_str, "trade") {
        Some(Channel::Trade)
    } else if str_eq(channel_str, "fill") {
        Some(Channel::Fill)
    } else if str_eq(channel_str, "market_position") {
        Some(Channel::MarketPosition)
    } else if str_eq(channel_str, "market_lifecycle_v2") {
        Some(Channel::MarketLifecycleV2)
    } else if str_eq(channel_str, "event_lifecycle") {
        Some(Channel::EventLifecycle)
    } else if str_eq(channel_str, "multivariate") {
        Some(Channel::Multivariate)
    } else if str_eq(channel_str, "communications") {
        Some(Channel::Communications)
    } else {
        None
    }
}

/// Every channel's wire name parses back to that channel: the wire names are
/// pairwise distinct, so a confirmation that echoes a name identifies the
/// channel uniquely.
pub proof fn lemma_wire_name_round_trip(c: Channel)
    ensures
        spec_parse_channel(spec_wire_name(c)) == Some(c),
{
    reveal_strlit("orderbook_delta");
    reveal_strlit("ticker");
    reveal_strlit("trade");
    reveal_strlit("fill");
    reveal_strlit("market_position");
    reveal_strlit("market_lifecycle_v2");
    reveal_strlit("event_lifecycle");
    reveal_strlit("multivariate");
    reveal_strlit("communications");
    // Most names differ in length; three share one, and their first
    // characters tell them apart.
    assert("orderbook_delta"@.len() == 15);
    assert("ticker"@.len() == 6);
    assert("trade"@.len() == 5);
    assert("fill"@.len() == 4);
    assert("market_position"@.len() == 15);
    assert("market_lifecycle_v2"@.len() == 19);
    assert("event_lifecycle"@.len() == 15);
    assert("multivariate"@.len() == 12);
    assert("communications"@.len() == 14);
    assert("orderbook_delta"@[0] == 'o');
    assert("market_position"@[0] == 'm');
    assert("event_lifecycle"@[0] == 'e');
}

} // verus!
