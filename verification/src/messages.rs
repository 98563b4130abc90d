//! The wire message codec: every inbound frame is classified into a closed
//! set of message variants.
//!
//! A frame is a JSON envelope `{type, sid?, seq?, id?, msg?}`.  A frame whose
//! envelope does not parse is a [`DecodeError::Envelope`].  A recognized
//! `type` whose payload does not match its schema is a hard
//! [`DecodeError::Payload`]; an unrecognized `type` decodes successfully to
//! [`WebSocketMessage::Unknown`], carrying the raw envelope, so that new
//! server message types never abort the stream.

use vstd::prelude::*;
use crate::json::{
    JsonVal, json_of, parse_json, obj_get, spec_obj_get, in_i32_range,
    spec_req_str, spec_req_i32, spec_req_i64, spec_opt_str, spec_opt_i32, spec_opt_i64,
    req_str, req_i32, req_i64, opt_str, opt_i32, opt_i64,
};
use crate::portfolio::{Action, Side};
use crate::strings::{str_eq, str_views};

verus! {

/// Why a frame failed to decode.
#[derive(Debug, Clone, Copy, PartialEq, Eq, Structural)]
pub enum DecodeError {
    /// The text is not a JSON object with the envelope's shape.
    Envelope,
    /// The envelope's `type` is recognized but its `msg` payload does not
    /// match that type's schema.
    Payload,
}

// --- Control Messages ---

/// A subscription confirmation.
#[derive(Debug, PartialEq)]
pub struct SubscribedMsg {
    pub channel: String,
    pub sid: i32,
}

/// A plain acknowledgment of a command.
#[derive(Debug, PartialEq)]
pub struct OkMsg {
    pub sid: i32,
    pub seq: i64,
}

/// A server-side rejection.
#[derive(Debug, PartialEq)]
pub struct ErrorMsg {
    pub code: i32,
    pub msg: String,
}

// --- Orderbook Messages ---

/// A full orderbook snapshot.
#[derive(Debug, PartialEq)]
pub struct OrderbookSnapshotMsg {
    pub market_ticker: String,
    pub yes: Vec<Vec<i32>>,
    pub yes_dollars: Vec<Vec<String>>,
    pub no: Vec<Vec<i32>>,
    pub no_dollars: Vec<Vec<String>>,
}

/// An incremental orderbook change.
#[derive(Debug, PartialEq)]
pub struct OrderbookDeltaMsg {
    pub market_ticker: String,
    pub price: i32,
    pub price_dollars: String,
    pub delta: i32,
    /// "yes" or "no"
    pub side: String,
}

// --- Market Data Messages ---

/// A market ticker update.
#[derive(Debug, PartialEq)]
pub struct TickerMsg {
    pub market_ticker: String,
    pub price: Option<i32>,
    pub yes_bid: Option<i32>,
    pub yes_ask: Option<i32>,
    pub price_dollars: Option<String>,
    pub volume: Option<i64>,
    pub open_interest: Option<i64>,
    pub ts: Option<i64>,
}

/// A public trade execution.
#[derive(Debug, PartialEq)]
pub struct TradeMsg {
    pub market_ticker: String,
    pub yes_price: i32,
    pub no_price: i32,
    pub count: i32,
    pub taker_side: String,
    pub ts: i64,
}

// --- User Data Messages (auth required) ---

/// One of the user's own fills.
#[derive(Debug, PartialEq)]
pub struct FillMsg {
    pub trade_id: String,
    pub order_id: String,
    pub market_ticker: String,
    pub side: Side,
    pub action: Action,
    pub count: i32,
    pub post_position: i32,
}

/// The user's position in one market.
#[derive(Debug, PartialEq)]
pub struct MarketPositionMsg {
    pub market_ticker: String,
    pub position: i32,
    /// Position cost in centi-cents (divide by 10,000 for USD)
    pub position_cost: i64,
    /// Realized P&L in centi-cents
    pub realized_pnl: i64,
    /// Fees paid in centi-cents
    pub fees_paid: i64,
}

// --- Lifecycle Messages ---

/// A step in a market's lifecycle.
#[derive(Debug, Clone, Copy, PartialEq, Eq, Structural)]
pub enum MarketLifecycleEvent {
    Created,
    Activated,
    Deactivated,
    CloseDateUpdated,
    Determined,
    Settled,
}

/// A market lifecycle notification.
#[derive(Debug, PartialEq)]
pub struct MarketLifecycleMsg {
    pub market_ticker: String,
    pub event_type: MarketLifecycleEvent,
    pub open_ts: Option<i64>,
    pub close_ts: Option<i64>,
}

/// An event lifecycle notification.
#[derive(Debug, PartialEq)]
pub struct EventLifecycleMsg {
    pub event_ticker: String,
    pub title: String,
}

// --- Multivariate Messages ---

/// One market selected in a multivariate lookup.
#[derive(Debug, PartialEq)]
pub struct SelectedMarket {
    pub market_ticker: String,
    pub side: String,
}

/// A multivariate collection lookup.
#[derive(Debug, PartialEq)]
pub struct MultivariateLookupMsg {
    pub collection_ticker: String,
    pub market_ticker: String,
    pub selected_markets: Vec<SelectedMarket>,
}

// --- Communications Messages ---

/// A request-for-quote was created.
#[derive(Debug, PartialEq)]
pub struct RfqCreatedMsg {
    pub id: String,
    pub market_ticker: String,
    pub contracts: i32,
}

/// A quote was created in reply to an RFQ.
#[derive(Debug, PartialEq)]
pub struct QuoteCreatedMsg {
    pub quote_id: String,
    pub rfq_id: String,
    pub yes_bid: i32,
    pub no_bid: i32,
}

/// A quote was accepted.
#[derive(Debug, PartialEq)]
pub struct QuoteAcceptedMsg {
    pub quote_id: String,
    pub accepted_side: String,
}

/// Unified WebSocket message type.
#[derive(Debug, PartialEq)]
pub enum WebSocketMessage {
    // Control messages
    Subscribed(SubscribedMsg),
    Ack(OkMsg),
    Error(ErrorMsg),
    // Orderbook
    OrderbookSnapshot(OrderbookSnapshotMsg),
    OrderbookDelta(OrderbookDeltaMsg),
    // Market data
    Ticker(TickerMsg),
    Trade(TradeMsg),
    // User data (auth required)
    Fill(FillMsg),
    MarketPosition(MarketPositionMsg),
    // Lifecycle
    MarketLifecycle(MarketLifecycleMsg),
    EventLifecycle(EventLifecycleMsg),
    // Multivariate
    MultivariateLookup(MultivariateLookupMsg),
    // Communications
    RfqCreated(RfqCreatedMsg),
    QuoteCreated(QuoteCreatedMsg),
    QuoteAccepted(QuoteAcceptedMsg),
    // Unknown: the raw envelope, kept for forward compatibility
    Unknown(JsonVal),
}

// --- Parsing the string-coded enums ---

/// The side strings the wire uses.
pub open spec fn spec_parse_side(s: Seq<char>) -> Option<Side> {
    if s == "yes"@ {
        Some(Side::Yes)
    } else if s == "no"@ {
        Some(Side::No)
    } else {
        None
    }
}

fn parse_side(s: &str) -> (r: Option<Side>)
    ensures
        r == spec_parse_side(s@),
{
    if str_eq(s, "yes") {
        Some(Side::Yes)
    } else if str_eq(s, "no") {
        Some(Side::No)
    } else {
        None
    }
}

/// The action strings the wire uses.
pub open spec fn spec_parse_action(s: Seq<char>) -> Option<Action> {
    if s == "buy"@ {
        Some(Action::Buy)
    } else if s == "sell"@ {
        Some(Action::Sell)
    } else {
        None
    }
}

fn parse_action(s: &str) -> (r: Option<Action>)
    ensures
        r == spec_parse_action(s@),
{
    if str_eq(s, "buy") {
        Some(Action::Buy)
    } else if str_eq(s, "sell") {
        Some(Action::Sell)
    } else {
        None
    }
}

/// The lifecycle event strings the wire uses.
pub open spec fn spec_parse_lifecycle_event(s: Seq<char>) -> Option<MarketLifecycleEvent> {
    if s == "created"@ {
        Some(MarketLifecycleEvent::Created)
    } else if s == "activated"@ {
        Some(MarketLifecycleEvent::Activated)
    } else if s == "deactivated"@ {
        Some(MarketLifecycleEvent::Deactivated)
    } else if s == "closedateupdated"@ {
        Some(MarketLifecycleEvent::CloseDateUpdated)
    } else if s == "determined"@ {
        Some(MarketLifecycleEvent::Determined)
    } else if s == "settled"@ {
        Some(MarketLifecycleEvent::Settled)
    } else {
        None
    }
}

fn parse_lifecycle_event(s: &str) -> (r: Option<MarketLifecycleEvent>)
    ensures
        r == spec_parse_lifecycle_event(s@),
{
    if str_eq(s, "created") {
        Some(MarketLifecycleEvent::Created)
    } else if str_eq(s, "activated") {
        Some(MarketLifecycleEvent::Activated)
    } else if str_eq(s, "deactivated") {
        Some(MarketLifecycleEvent::Deactivated)
    } else if str_eq(s, "closedateupdated") {
        Some(MarketLifecycleEvent::CloseDateUpdated)
    } else if str_eq(s, "determined") {
        Some(MarketLifecycleEvent::Determined)
    } else if str_eq(s, "settled") {
        Some(MarketLifecycleEvent::Settled)
    } else {
        None
    }
}

// --- Array payload pieces ---

/// Every element is an integer that fits in `i32`.
pub open spec fn spec_is_i32_row(a: Seq<JsonVal>) -> bool {
    forall|j: int| 0 <= j < a.len() ==> (#[trigger] a[j] matches JsonVal::Int(n) && in_i32_range(n))
}

/// The row's values, once [`spec_is_i32_row`] holds.
pub open spec fn spec_i32_row(a: Seq<JsonVal>) -> Seq<i32> {
    Seq::new(a.len(), |j: int| match a[j] {
        JsonVal::Int(n) => n as i32,
        _ => 0i32,
    })
}

fn parse_i32_row(a: &Vec<JsonVal>) -> (r: Option<Vec<i32>>)
    ensures
        r is Some <==> spec_is_i32_row(a@),
        r matches Some(row) ==> row@ == spec_i32_row(a@),
{
    let mut out: Vec<i32> = Vec::new();
    let mut i: usize = 0;
    while i < a.len()
        invariant
            i <= a.len(),
            out@.len() == i,
            forall|j: int| 0 <= j < i ==> (#[trigger] a@[j] matches JsonVal::Int(n) && in_i32_range(n)),
            forall|j: int| 0 <= j < i ==> out@[j] == spec_i32_row(a@)[j],
        decreases a.len() - i,
    {
        match &a[i] {
            JsonVal::Int(n) => {
                if i32::MIN as i64 <= *n && *n <= i32::MAX as i64 {
                    out.push(*n as i32);
                } else {
                    return None;
                }
            },
            _ => {
                return None;
            },
        }
        i = i + 1;
    }
    assert(out@ =~= spec_i32_row(a@));
    Some(out)
}

/// Every element is a string.
pub open spec fn spec_is_str_row(a: Seq<JsonVal>) -> bool {
    forall|j: int| 0 <= j < a.len() ==> #[trigger] a[j] matches JsonVal::Str(s)
}

/// The row's strings, once [`spec_is_str_row`] holds.
pub open spec fn spec_str_row(a: Seq<JsonVal>) -> Seq<Seq<char>> {
    Seq::new(a.len(), |j: int| match a[j] {
        JsonVal::Str(s) => s@,
        _ => Seq::empty(),
    })
}

fn parse_str_row(a: &Vec<JsonVal>) -> (r: Option<Vec<String>>)
    ensures
        r is Some <==> spec_is_str_row(a@),
        r matches Some(row) ==> str_views(row@) == spec_str_row(a@),
{
    let mut out: Vec<String> = Vec::new();
    let mut i: usize = 0;
    while i < a.len()
        invariant
            i <= a.len(),
            out@.len() == i,
            forall|j: int| 0 <= j < i ==> #[trigger] a@[j] matches JsonVal::Str(s),
            forall|j: int| 0 <= j < i ==> out@[j]@ == spec_str_row(a@)[j],
        decreases a.len() - i,
    {
        match &a[i] {
            JsonVal::Str(s) => {
                out.push(s.clone());
            },
            _ => {
                return None;
            },
        }
        i = i + 1;
    }
    assert(str_views(out@) =~= spec_str_row(a@));
    Some(out)
}

/// An array of arrays of `i32`-sized integers.
pub open spec fn spec_is_i32_matrix(v: JsonVal) -> bool {
    v matches JsonVal::Arr(rows) && forall|j: int|
        0 <= j < rows@.len() ==> (#[trigger] rows@[j] matches JsonVal::Arr(a) && spec_is_i32_row(a@))
}

/// The matrix's values, once [`spec_is_i32_matrix`] holds.
pub open spec fn spec_i32_matrix(v: JsonVal) -> Seq<Seq<i32>> {
    match v {
        JsonVal::Arr(rows) => Seq::new(rows@.len(), |j: int| match rows@[j] {
            JsonVal::Arr(a) => spec_i32_row(a@),
            _ => Seq::empty(),
        }),
        _ => Seq::empty(),
    }
}

/// The view of each row of an `i32` matrix.
pub open spec fn spec_i32_rows_view(m: Seq<Vec<i32>>) -> Seq<Seq<i32>> {
    Seq::new(m.len(), |j: int| m[j]@)
}

#[verifier::loop_isolation(false)]
fn parse_i32_matrix(v: &JsonVal) -> (r: Option<Vec<Vec<i32>>>)
    ensures
        r is Some <==> spec_is_i32_matrix(*v),
        r matches Some(m) ==> spec_i32_rows_view(m@) == spec_i32_matrix(*v),
{
    match v {
        JsonVal::Arr(rows) => {
            let mut out: Vec<Vec<i32>> = Vec::new();
            let mut i: usize = 0;
            while i < rows.len()
                invariant
                    i <= rows.len(),
                    out@.len() == i,
                    forall|j: int| 0 <= j < i
                        ==> (#[trigger] rows@[j] matches JsonVal::Arr(a) && spec_is_i32_row(a@)),
                    forall|j: int| 0 <= j < i ==> out@[j]@ == spec_i32_matrix(JsonVal::Arr(*rows))[j],
                decreases rows.len() - i,
            {
                match &rows[i] {
                    JsonVal::Arr(a) => {
                        match parse_i32_row(a) {
                            Some(row) => {
                                out.push(row);
                            },
                            None => {
                                proof {
                                    if spec_is_i32_matrix(*v) {
                                        assert((rows@[i as int] matches JsonVal::Arr(aa)
                                            && spec_is_i32_row(aa@)));
                                    }
                                }
                                return None;
                            },
                        }
                    },
                    _ => {
                        proof {
                            if spec_is_i32_matrix(*v) {
                                assert((rows@[i as int] matches JsonVal::Arr(aa)
                                    && spec_is_i32_row(aa@)));
                            }
                        }
                        return None;
                    },
                }
                i = i + 1;
            }
            assert(spec_i32_rows_view(out@) =~= spec_i32_matrix(*v));
            Some(out)
        },
        _ => None,
    }
}

/// The view of each row of a string matrix.
pub open spec fn spec_str_rows_view(m: Seq<Vec<String>>) -> Seq<Seq<Seq<char>>> {
    Seq::new(m.len(), |j: int| str_views(m[j]@))
}

/// An array of arrays of strings.
pub open spec fn spec_is_str_matrix(v: JsonVal) -> bool {
    v matches JsonVal::Arr(rows) && forall|j: int|
        0 <= j < rows@.len() ==> (#[trigger] rows@[j] matches JsonVal::Arr(a) && spec_is_str_row(a@))
}

/// The matrix's values, once [`spec_is_str_matrix`] holds.
pub open spec fn spec_str_matrix(v: JsonVal) -> Seq<Seq<Seq<char>>> {
    match v {
        JsonVal::Arr(rows) => Seq::new(rows@.len(), |j: int| match rows@[j] {
            JsonVal::Arr(a) => spec_str_row(a@),
            _ => Seq::empty(),
        }),
        _ => Seq::empty(),
    }
}

#[verifier::loop_isolation(false)]
fn parse_str_matrix(v: &JsonVal) -> (r: Option<Vec<Vec<String>>>)
    ensures
        r is Some <==> spec_is_str_matrix(*v),
        r matches Some(m) ==> spec_str_rows_view(m@) == spec_str_matrix(*v),
{
    match v {
        JsonVal::Arr(rows) => {
            let mut out: Vec<Vec<String>> = Vec::new();
            let mut i: usize = 0;
            while i < rows.len()
                invariant
                    i <= rows.len(),
                    out@.len() == i,
                    forall|j: int| 0 <= j < i
                        ==> (#[trigger] rows@[j] matches JsonVal::Arr(a) && spec_is_str_row(a@)),
                    forall|j: int| 0 <= j < i
                        ==> str_views(out@[j]@) == spec_str_matrix(JsonVal::Arr(*rows))[j],
                decreases rows.len() - i,
            {
                match &rows[i] {
                    JsonVal::Arr(a) => {
                        match parse_str_row(a) {
                            Some(row) => {
                                out.push(row);
                            },
                            None => {
                                proof {
                                    if spec_is_str_matrix(*v) {
                                        assert((rows@[i as int] matches JsonVal::Arr(aa)
                                            && spec_is_str_row(aa@)));
                                    }
                                }
                                return None;
                            },
                        }
                    },
                    _ => {
                        proof {
                            if spec_is_str_matrix(*v) {
                                assert((rows@[i as int] matches JsonVal::Arr(aa)
                                    && spec_is_str_row(aa@)));
                            }
                        }
                        return None;
                    },
                }
                i = i + 1;
            }
            assert(spec_str_rows_view(out@) =~= spec_str_matrix(*v));
            Some(out)
        },
        _ => None,
    }
}

/// Whether one element is a well-formed selected market.
pub open spec fn spec_is_selected_market(v: JsonVal) -> bool {
    v matches JsonVal::Obj(fs) && spec_req_str(fs@, "market_ticker"@) is Some
        && spec_req_str(fs@, "side"@) is Some
}

/// The selected market an element denotes, once well-formed.
pub open spec fn spec_selected_market(v: JsonVal) -> SelectedMarket {
    match v {
        JsonVal::Obj(fs) => SelectedMarket {
            market_ticker: spec_req_str(fs@, "market_ticker"@).unwrap(),
            side: spec_req_str(fs@, "side"@).unwrap(),
        },
        _ => arbitrary(),
    }
}

fn parse_selected_market(v: &JsonVal) -> (r: Option<SelectedMarket>)
    ensures
        r is Some <==> spec_is_selected_market(*v),
        r matches Some(m) ==> m == spec_selected_market(*v),
{
    match v {
        JsonVal::Obj(fs) => {
            let market_ticker = match req_str(fs, "market_ticker") {
                Some(x) => x,
                None => {
                    return None;
                },
            };
            let side = match req_str(fs, "side") {
                Some(x) => x,
                None => {
                    return None;
                },
            };
            Some(SelectedMarket { market_ticker, side })
        },
        _ => None,
    }
}

/// An array of well-formed selected markets.
pub open spec fn spec_is_selected_markets(v: JsonVal) -> bool {
    v matches JsonVal::Arr(a) && forall|j: int|
        0 <= j < a@.len() ==> spec_is_selected_market(#[trigger] a@[j])
}

/// The selected markets, once [`spec_is_selected_markets`] holds.
pub open spec fn spec_selected_markets(v: JsonVal) -> Seq<SelectedMarket> {
    match v {
        JsonVal::Arr(a) => Seq::new(a@.len(), |j: int| spec_selected_market(a@[j])),
        _ => Seq::empty(),
    }
}

#[verifier::loop_isolation(false)]
fn parse_selected_markets(v: &JsonVal) -> (r: Option<Vec<SelectedMarket>>)
    ensures
        r is Some <==> spec_is_selected_markets(*v),
        r matches Some(ms) ==> ms@ == spec_selected_markets(*v),
{
    match v {
        JsonVal::Arr(a) => {
            let mut out: Vec<SelectedMarket> = Vec::new();
            let mut i: usize = 0;
            while i < a.len()
                invariant
                    i <= a.len(),
                    out@.len() == i,
                    forall|j: int| 0 <= j < i ==> spec_is_selected_market(#[trigger] a@[j]),
                    forall|j: int| 0 <= j < i ==> out@[j] == spec_selected_market(a@[j]),
                decreases a.len() - i,
            {
                match parse_selected_market(&a[i]) {
                    Some(m) => {
                        out.push(m);
                    },
                    None => {
                        proof {
                            if spec_is_selected_markets(*v) {
                                assert(spec_is_selected_market(a@[i as int]));
                            }
                        }
                        return None;
                    },
                }
                i = i + 1;
            }
            assert(out@ =~= spec_selected_markets(*v));
            Some(out)
        },
        _ => None,
    }
}

// --- Payload schemas ---

/// Schema of a `subscribed` payload.
pub open spec fn spec_parse_subscribed(v: JsonVal) -> Option<SubscribedMsg> {
    match v {
        JsonVal::Obj(fs) => {
            if spec_req_str(fs@, "channel"@) is Some && spec_req_i32(fs@, "sid"@) is Some {
                Some(SubscribedMsg {
                    channel: spec_req_str(fs@, "channel"@).unwrap(),
                    sid: spec_req_i32(fs@, "sid"@).unwrap(),
                })
            } else {
                None
            }
        },
        _ => None,
    }
}

fn parse_subscribed(v: &JsonVal) -> (r: Option<SubscribedMsg>)
    ensures
        r == spec_parse_subscribed(*v),
{
    match v {
        JsonVal::Obj(fs) => {
            let channel = match req_str(fs, "channel") {
                Some(x) => x,
                None => {
                    return None;
                },
            };
            let sid = match req_i32(fs, "sid") {
                Some(x) => x,
                None => {
                    return None;
                },
            };
            Some(SubscribedMsg { channel, sid })
        },
        _ => None,
    }
}

/// Schema of an `error` payload.
pub open spec fn spec_parse_error(v: JsonVal) -> Option<ErrorMsg> {
    match v {
        JsonVal::Obj(fs) => {
            if spec_req_i32(fs@, "code"@) is Some && spec_req_str(fs@, "msg"@) is Some {
                Some(ErrorMsg {
                    code: spec_req_i32(fs@, "code"@).unwrap(),
                    msg: spec_req_str(fs@, "msg"@).unwrap(),
                })
            } else {
                None
            }
        },
        _ => None,
    }
}

fn parse_error(v: &JsonVal) -> (r: Option<ErrorMsg>)
    ensures
        r == spec_parse_error(*v),
{
    match v {
        JsonVal::Obj(fs) => {
            let code = match req_i32(fs, "code") {
                Some(x) => x,
                None => {
                    return None;
                },
            };
            let msg = match req_str(fs, "msg") {
                Some(x) => x,
                None => {
                    return None;
                },
            };
            Some(ErrorMsg { code, msg })
        },
        _ => None,
    }
}

/// Schema of an `orderbook_delta` payload.
pub open spec fn spec_parse_orderbook_delta(v: JsonVal) -> Option<OrderbookDeltaMsg> {
    match v {
        JsonVal::Obj(fs) => {
            if spec_req_str(fs@, "market_ticker"@) is Some && spec_req_i32(fs@, "price"@) is Some
                && spec_req_str(fs@, "price_dollars"@) is Some
                && spec_req_i32(fs@, "delta"@) is Some && spec_req_str(fs@, "side"@) is Some {
                Some(OrderbookDeltaMsg {
                    market_ticker: spec_req_str(fs@, "market_ticker"@).unwrap(),
                    price: spec_req_i32(fs@, "price"@).unwrap(),
                    price_dollars: spec_req_str(fs@, "price_dollars"@).unwrap(),
                    delta: spec_req_i32(fs@, "delta"@).unwrap(),
                    side: spec_req_str(fs@, "side"@).unwrap(),
                })
            } else {
                None
            }
        },
        _ => None,
    }
}

fn parse_orderbook_delta(v: &JsonVal) -> (r: Option<OrderbookDeltaMsg>)
    ensures
        r == spec_parse_orderbook_delta(*v),
{
    match v {
        JsonVal::Obj(fs) => {
            let market_ticker = match req_str(fs, "market_ticker") {
                Some(x) => x,
                None => {
                    return None;
                },
            };
            let price = match req_i32(fs, "price") {
                Some(x) => x,
                None => {
                    return None;
                },
            };
            let price_dollars = match req_str(fs, "price_dollars") {
                Some(x) => x,
                None => {
                    return None;
                },
            };
            let delta = match req_i32(fs, "delta") {
                Some(x) => x,
                None => {
                    return None;
                },
            };
            let side = match req_str(fs, "side") {
                Some(x) => x,
                None => {
                    return None;
                },
            };
            Some(OrderbookDeltaMsg { market_ticker, price, price_dollars, delta, side })
        },
        _ => None,
    }
}

/// Schema of a `ticker` payload.
pub open spec fn spec_parse_ticker(v: JsonVal) -> Option<TickerMsg> {
    match v {
        JsonVal::Obj(fs) => {
            if spec_req_str(fs@, "market_ticker"@) is Some
                && spec_opt_i32(fs@, "price"@) is Some
                && spec_opt_i32(fs@, "yes_bid"@) is Some
                && spec_opt_i32(fs@, "yes_ask"@) is Some
                && spec_opt_str(fs@, "price_dollars"@) is Some
                && spec_opt_i64(fs@, "volume"@) is Some
                && spec_opt_i64(fs@, "open_interest"@) is Some
                && spec_opt_i64(fs@, "ts"@) is Some {
                Some(TickerMsg {
                    market_ticker: spec_req_str(fs@, "market_ticker"@).unwrap(),
                    price: spec_opt_i32(fs@, "price"@).unwrap(),
                    yes_bid: spec_opt_i32(fs@, "yes_bid"@).unwrap(),
                    yes_ask: spec_opt_i32(fs@, "yes_ask"@).unwrap(),
                    price_dollars: spec_opt_str(fs@, "price_dollars"@).unwrap(),
                    volume: spec_opt_i64(fs@, "volume"@).unwrap(),
                    open_interest: spec_opt_i64(fs@, "open_interest"@).unwrap(),
                    ts: spec_opt_i64(fs@, "ts"@).unwrap(),
                })
            } else {
                None
            }
        },
        _ => None,
    }
}

fn parse_ticker(v: &JsonVal) -> (r: Option<TickerMsg>)
    ensures
        r == spec_parse_ticker(*v),
{
    match v {
        JsonVal::Obj(fs) => {
            let market_ticker = match req_str(fs, "market_ticker") {
                Some(x) => x,
                None => {
                    return None;
                },
            };
            let price = match opt_i32(fs, "price") {
                Some(x) => x,
                None => {
                    return None;
                },
            };
            let yes_bid = match opt_i32(fs, "yes_bid") {
                Some(x) => x,
                None => {
                    return None;
                },
            };
            let yes_ask = match opt_i32(fs, "yes_ask") {
                Some(x) => x,
                None => {
                    return None;
                },
            };
            let price_dollars = match opt_str(fs, "price_dollars") {
                Some(x) => x,
                None => {
                    return None;
                },
            };
            let volume = match opt_i64(fs, "volume") {
                Some(x) => x,
                None => {
                    return None;
                },
            };
            let open_interest = match opt_i64(fs, "open_interest") {
                Some(x) => x,
                None => {
                    return None;
                },
            };
            let ts = match opt_i64(fs, "ts") {
                Some(x) => x,
                None => {
                    return None;
                },
            };
            Some(TickerMsg {
                market_ticker,
                price,
                yes_bid,
                yes_ask,
                price_dollars,
                volume,
                open_interest,
                ts,
            })
        },
        _ => None,
    }
}

/// Schema of a `trade` payload.
pub open spec fn spec_parse_trade(v: JsonVal) -> Option<TradeMsg> {
    match v {
        JsonVal::Obj(fs) => {
            if spec_req_str(fs@, "market_ticker"@) is Some
                && spec_req_i32(fs@, "yes_price"@) is Some
                && spec_req_i32(fs@, "no_price"@) is Some
                && spec_req_i32(fs@, "count"@) is Some
                && spec_req_str(fs@, "taker_side"@) is Some
                && spec_req_i64(fs@, "ts"@) is Some {
                Some(TradeMsg {
                    market_ticker: spec_req_str(fs@, "market_ticker"@).unwrap(),
                    yes_price: spec_req_i32(fs@, "yes_price"@).unwrap(),
                    no_price: spec_req_i32(fs@, "no_price"@).unwrap(),
                    count: spec_req_i32(fs@, "count"@).unwrap(),
                    taker_side: spec_req_str(fs@, "taker_side"@).unwrap(),
                    ts: spec_req_i64(fs@, "ts"@).unwrap(),
                })
            } else {
                None
            }
        },
        _ => None,
    }
}

fn parse_trade(v: &JsonVal) -> (r: Option<TradeMsg>)
    ensures
        r == spec_parse_trade(*v),
{
    match v {
        JsonVal::Obj(fs) => {
            let market_ticker = match req_str(fs, "market_ticker") {
                Some(x) => x,
                None => {
                    return None;
                },
            };
            let yes_price = match req_i32(fs, "yes_price") {
                Some(x) => x,
                None => {
                    return None;
                },
            };
            let no_price = match req_i32(fs, "no_price") {
                Some(x) => x,
                None => {
                    return None;
                },
            };
            let count = match req_i32(fs, "count") {
                Some(x) => x,
                None => {
                    return None;
                },
            };
            let taker_side = match req_str(fs, "taker_side") {
                Some(x) => x,
                None => {
                    return None;
                },
            };
            let ts = match req_i64(fs, "ts") {
                Some(x) => x,
                None => {
                    return None;
                },
            };
            Some(TradeMsg { market_ticker, yes_price, no_price, count, taker_side, ts })
        },
        _ => None,
    }
}

/// Schema of a `fill` payload.
pub open spec fn spec_parse_fill(v: JsonVal) -> Option<FillMsg> {
    match v {
        JsonVal::Obj(fs) => {
            if spec_req_str(fs@, "trade_id"@) is Some
                && spec_req_str(fs@, "order_id"@) is Some
                && spec_req_str(fs@, "market_ticker"@) is Some
                && spec_req_str(fs@, "side"@) is Some
                && spec_parse_side(spec_req_str(fs@, "side"@).unwrap()@) is Some
                && spec_req_str(fs@, "action"@) is Some
                && spec_parse_action(spec_req_str(fs@, "action"@).unwrap()@) is Some
                && spec_req_i32(fs@, "count"@) is Some
                && spec_req_i32(fs@, "post_position"@) is Some {
                Some(FillMsg {
                    trade_id: spec_req_str(fs@, "trade_id"@).unwrap(),
                    order_id: spec_req_str(fs@, "order_id"@).unwrap(),
                    market_ticker: spec_req_str(fs@, "market_ticker"@).unwrap(),
                    side: spec_parse_side(spec_req_str(fs@, "side"@).unwrap()@).unwrap(),
                    action: spec_parse_action(spec_req_str(fs@, "action"@).unwrap()@).unwrap(),
                    count: spec_req_i32(fs@, "count"@).unwrap(),
                    post_position: spec_req_i32(fs@, "post_position"@).unwrap(),
                })
            } else {
                None
            }
        },
        _ => None,
    }
}

fn parse_fill(v: &JsonVal) -> (r: Option<FillMsg>)
    ensures
        r == spec_parse_fill(*v),
{
    match v {
        JsonVal::Obj(fs) => {
            let trade_id = match req_str(fs, "trade_id") {
                Some(x) => x,
                None => {
                    return None;
                },
            };
            let order_id = match req_str(fs, "order_id") {
                Some(x) => x,
                None => {
                    return None;
                },
            };
            let market_ticker = match req_str(fs, "market_ticker") {
                Some(x) => x,
                None => {
                    return None;
                },
            };
            let side_str = match req_str(fs, "side") {
                Some(x) => x,
                None => {
                    return None;
                },
            };
            let side = match parse_side(side_str.as_str()) {
                Some(x) => x,
                None => {
                    return None;
                },
            };
            let action_str = match req_str(fs, "action") {
                Some(x) => x,
                None => {
                    return None;
                },
            };
            let action = match parse_action(action_str.as_str()) {
                Some(x) => x,
                None => {
                    return None;
                },
            };
            let count = match req_i32(fs, "count") {
                Some(x) => x,
                None => {
                    return None;
                },
            };
            let post_position = match req_i32(fs, "post_position") {
                Some(x) => x,
                None => {
                    return None;
                },
            };
            Some(FillMsg { trade_id, order_id, market_ticker, side, action, count, post_position })
        },
        _ => None,
    }
}

/// Schema of a `market_position` payload.
pub open spec fn spec_parse_market_position(v: JsonVal) -> Option<MarketPositionMsg> {
    match v {
        JsonVal::Obj(fs) => {
            if spec_req_str(fs@, "market_ticker"@) is Some
                && spec_req_i32(fs@, "position"@) is Some
                && spec_req_i64(fs@, "position_cost"@) is Some
                && spec_req_i64(fs@, "realized_pnl"@) is Some
                && spec_req_i64(fs@, "fees_paid"@) is Some {
                Some(MarketPositionMsg {
                    market_ticker: spec_req_str(fs@, "market_ticker"@).unwrap(),
                    position: spec_req_i32(fs@, "position"@).unwrap(),
                    position_cost: spec_req_i64(fs@, "position_cost"@).unwrap(),
                    realized_pnl: spec_req_i64(fs@, "realized_pnl"@).unwrap(),
                    fees_paid: spec_req_i64(fs@, "fees_paid"@).unwrap(),
                })
            } else {
                None
            }
        },
        _ => None,
    }
}

fn parse_market_position(v: &JsonVal) -> (r: Option<MarketPositionMsg>)
    ensures
        r == spec_parse_market_position(*v),
{
    match v {
        JsonVal::Obj(fs) => {
            let market_ticker = match req_str(fs, "market_ticker") {
                Some(x) => x,
                None => {
                    return None;
                },
            };
            let position = match req_i32(fs, "position") {
                Some(x) => x,
                None => {
                    return None;
                },
            };
            let position_cost = match req_i64(fs, "position_cost") {
                Some(x) => x,
                None => {
                    return None;
                },
            };
            let realized_pnl = match req_i64(fs, "realized_pnl") {
                Some(x) => x,
                None => {
                    return None;
                },
            };
            let fees_paid = match req_i64(fs, "fees_paid") {
                Some(x) => x,
                None => {
                    return None;
                },
            };
            Some(MarketPositionMsg {
                market_ticker,
                position,
                position_cost,
                realized_pnl,
                fees_paid,
            })
        },
        _ => None,
    }
}

/// Schema of a `market_lifecycle_v2` payload.
pub open spec fn spec_parse_market_lifecycle(v: JsonVal) -> Option<MarketLifecycleMsg> {
    match v {
        JsonVal::Obj(fs) => {
            if spec_req_str(fs@, "market_ticker"@) is Some
                && spec_req_str(fs@, "event_type"@) is Some
                && spec_parse_lifecycle_event(spec_req_str(fs@, "event_type"@).unwrap()@) is Some
                && spec_opt_i64(fs@, "open_ts"@) is Some
                && spec_opt_i64(fs@, "close_ts"@) is Some {
                Some(MarketLifecycleMsg {
                    market_ticker: spec_req_str(fs@, "market_ticker"@).unwrap(),
                    event_type: spec_parse_lifecycle_event(
                        spec_req_str(fs@, "event_type"@).unwrap()@,
                    ).unwrap(),
                    open_ts: spec_opt_i64(fs@, "open_ts"@).unwrap(),
                    close_ts: spec_opt_i64(fs@, "close_ts"@).unwrap(),
                })
            } else {
                None
            }
        },
        _ => None,
    }
}

fn parse_market_lifecycle(v: &JsonVal) -> (r: Option<MarketLifecycleMsg>)
    ensures
        r == spec_parse_market_lifecycle(*v),
{
    match v {
        JsonVal::Obj(fs) => {
            let market_ticker = match req_str(fs, "market_ticker") {
                Some(x) => x,
                None => {
                    return None;
                },
            };
            let event_str = match req_str(fs, "event_type") {
                Some(x) => x,
                None => {
                    return None;
                },
            };
            let event_type = match parse_lifecycle_event(event_str.as_str()) {
                Some(x) => x,
                None => {
                    return None;
                },
            };
            let open_ts = match opt_i64(fs, "open_ts") {
                Some(x) => x,
                None => {
                    return None;
                },
            };
            let close_ts = match opt_i64(fs, "close_ts") {
                Some(x) => x,
                None => {
                    return None;
                },
            };
            Some(MarketLifecycleMsg { market_ticker, event_type, open_ts, close_ts })
        },
        _ => None,
    }
}

/// Schema of an `event_lifecycle` payload.
pub open spec fn spec_parse_event_lifecycle(v: JsonVal) -> Option<EventLifecycleMsg> {
    match v {
        JsonVal::Obj(fs) => {
            if spec_req_str(fs@, "event_ticker"@) is Some && spec_req_str(fs@, "title"@) is Some {
                Some(EventLifecycleMsg {
                    event_ticker: spec_req_str(fs@, "event_ticker"@).unwrap(),
                    title: spec_req_str(fs@, "title"@).unwrap(),
                })
            } else {
                None
            }
        },
        _ => None,
    }
}

fn parse_event_lifecycle(v: &JsonVal) -> (r: Option<EventLifecycleMsg>)
    ensures
        r == spec_parse_event_lifecycle(*v),
{
    match v {
        JsonVal::Obj(fs) => {
            let event_ticker = match req_str(fs, "event_ticker") {
                Some(x) => x,
                None => {
                    return None;
                },
            };
            let title = match req_str(fs, "title") {
                Some(x) => x,
                None => {
                    return None;
                },
            };
            Some(EventLifecycleMsg { event_ticker, title })
        },
        _ => None,
    }
}

/// Schema of an `rfq_created` payload.
pub open spec fn spec_parse_rfq_created(v: JsonVal) -> Option<RfqCreatedMsg> {
    match v {
        JsonVal::Obj(fs) => {
            if spec_req_str(fs@, "id"@) is Some && spec_req_str(fs@, "market_ticker"@) is Some
                && spec_req_i32(fs@, "contracts"@) is Some {
                Some(RfqCreatedMsg {
                    id: spec_req_str(fs@, "id"@).unwrap(),
                    market_ticker: spec_req_str(fs@, "market_ticker"@).unwrap(),
                    contracts: spec_req_i32(fs@, "contracts"@).unwrap(),
                })
            } else {
                None
            }
        },
        _ => None,
    }
}

fn parse_rfq_created(v: &JsonVal) -> (r: Option<RfqCreatedMsg>)
    ensures
        r == spec_parse_rfq_created(*v),
{
    match v {
        JsonVal::Obj(fs) => {
            let id = match req_str(fs, "id") {
                Some(x) => x,
                None => {
                    return None;
                },
            };
            let market_ticker = match req_str(fs, "market_ticker") {
                Some(x) => x,
                None => {
                    return None;
                },
            };
            let contracts = match req_i32(fs, "contracts") {
                Some(x) => x,
                None => {
                    return None;
                },
            };
            Some(RfqCreatedMsg { id, market_ticker, contracts })
        },
        _ => None,
    }
}

/// Schema of a `quote_created` payload.
pub open spec fn spec_parse_quote_created(v: JsonVal) -> Option<QuoteCreatedMsg> {
    match v {
        JsonVal::Obj(fs) => {
            if spec_req_str(fs@, "quote_id"@) is Some && spec_req_str(fs@, "rfq_id"@) is Some
                && spec_req_i32(fs@, "yes_bid"@) is Some && spec_req_i32(fs@, "no_bid"@) is Some {
                Some(QuoteCreatedMsg {
                    quote_id: spec_req_str(fs@, "quote_id"@).unwrap(),
                    rfq_id: spec_req_str(fs@, "rfq_id"@).unwrap(),
                    yes_bid: spec_req_i32(fs@, "yes_bid"@).unwrap(),
                    no_bid: spec_req_i32(fs@, "no_bid"@).unwrap(),
                })
            } else {
                None
            }
        },
        _ => None,
    }
}

fn parse_quote_created(v: &JsonVal) -> (r: Option<QuoteCreatedMsg>)
    ensures
        r == spec_parse_quote_created(*v),
{
    match v {
        JsonVal::Obj(fs) => {
            let quote_id = match req_str(fs, "quote_id") {
                Some(x) => x,
                None => {
                    return None;
                },
            };
            let rfq_id = match req_str(fs, "rfq_id") {
                Some(x) => x,
                None => {
                    return None;
                },
            };
            let yes_bid = match req_i32(fs, "yes_bid") {
                Some(x) => x,
                None => {
                    return None;
                },
            };
            let no_bid = match req_i32(fs, "no_bid") {
                Some(x) => x,
                None => {
                    return None;
                },
            };
            Some(QuoteCreatedMsg { quote_id, rfq_id, yes_bid, no_bid })
        },
        _ => None,
    }
}

/// Schema of a `quote_accepted` payload.
pub open spec fn spec_parse_quote_accepted(v: JsonVal) -> Option<QuoteAcceptedMsg> {
    match v {
        JsonVal::Obj(fs) => {
            if spec_req_str(fs@, "quote_id"@) is Some
                && spec_req_str(fs@, "accepted_side"@) is Some {
                Some(QuoteAcceptedMsg {
                    quote_id: spec_req_str(fs@, "quote_id"@).unwrap(),
                    accepted_side: spec_req_str(fs@, "accepted_side"@).unwrap(),
                })
            } else {
                None
            }
        },
        _ => None,
    }
}

fn parse_quote_accepted(v: &JsonVal) -> (r: Option<QuoteAcceptedMsg>)
    ensures
        r == spec_parse_quote_accepted(*v),
{
    match v {
        JsonVal::Obj(fs) => {
            let quote_id = match req_str(fs, "quote_id") {
                Some(x) => x,
                None => {
                    return None;
                },
            };
            let accepted_side = match req_str(fs, "accepted_side") {
                Some(x) => x,
                None => {
                    return None;
                },
            };
            Some(QuoteAcceptedMsg { quote_id, accepted_side })
        },
        _ => None,
    }
}

/// Whether an `orderbook_snapshot` payload matches its schema.
pub open spec fn spec_snapshot_ok(v: JsonVal) -> bool {
    v matches JsonVal::Obj(fs)
    && spec_req_str(fs@, "market_ticker"@) is Some
    && (spec_obj_get(fs@, "yes"@) matches Some(y) && spec_is_i32_matrix(y))
    && (spec_obj_get(fs@, "yes_dollars"@) matches Some(yd) && spec_is_str_matrix(yd))
    && (spec_obj_get(fs@, "no"@) matches Some(n) && spec_is_i32_matrix(n))
    && (spec_obj_get(fs@, "no_dollars"@) matches Some(nd) && spec_is_str_matrix(nd))
}

/// What a decoded `orderbook_snapshot` holds, field by field.
pub open spec fn spec_snapshot_matches(v: JsonVal, m: OrderbookSnapshotMsg) -> bool {
    v matches JsonVal::Obj(fs)
    && Some(m.market_ticker) == spec_req_str(fs@, "market_ticker"@)
    && (spec_obj_get(fs@, "yes"@) matches Some(y)
        && spec_i32_rows_view(m.yes@) == spec_i32_matrix(y))
    && (spec_obj_get(fs@, "yes_dollars"@) matches Some(yd)
        && spec_str_rows_view(m.yes_dollars@) == spec_str_matrix(yd))
    && (spec_obj_get(fs@, "no"@) matches Some(n)
        && spec_i32_rows_view(m.no@) == spec_i32_matrix(n))
    && (spec_obj_get(fs@, "no_dollars"@) matches Some(nd)
        && spec_str_rows_view(m.no_dollars@) == spec_str_matrix(nd))
}

fn parse_snapshot(v: &JsonVal) -> (r: Option<OrderbookSnapshotMsg>)
    ensures
        r is Some <==> spec_snapshot_ok(*v),
        r matches Some(m) ==> spec_snapshot_matches(*v, m),
{
    match v {
        JsonVal::Obj(fs) => {
            let market_ticker = match req_str(fs, "market_ticker") {
                Some(x) => x,
                None => {
                    return None;
                },
            };
            let yes = match obj_get(fs, "yes") {
                Some(f) => match parse_i32_matrix(f) {
                    Some(x) => x,
                    None => {
                        return None;
                    },
                },
                None => {
                    return None;
                },
            };
            let yes_dollars = match obj_get(fs, "yes_dollars") {
                Some(f) => match parse_str_matrix(f) {
                    Some(x) => x,
                    None => {
                        return None;
                    },
                },
                None => {
                    return None;
                },
            };
            let no = match obj_get(fs, "no") {
                Some(f) => match parse_i32_matrix(f) {
                    Some(x) => x,
                    None => {
                        return None;
                    },
                },
                None => {
                    return None;
                },
            };
            let no_dollars = match obj_get(fs, "no_dollars") {
                Some(f) => match parse_str_matrix(f) {
                    Some(x) => x,
                    None => {
                        return None;
                    },
                },
                None => {
                    return None;
                },
            };
            Some(OrderbookSnapshotMsg { market_ticker, yes, yes_dollars, no, no_dollars })
        },
        _ => None,
    }
}

/// Whether a `multivariate_lookup` payload matches its schema.
pub open spec fn spec_multivariate_ok(v: JsonVal) -> bool {
    v matches JsonVal::Obj(fs)
    && spec_req_str(fs@, "collection_ticker"@) is Some
    && spec_req_str(fs@, "market_ticker"@) is Some
    && (spec_obj_get(fs@, "selected_markets"@) matches Some(sm)
        && spec_is_selected_markets(sm))
}

/// What a decoded `multivariate_lookup` holds, field by field.
pub open spec fn spec_multivariate_matches(v: JsonVal, m: MultivariateLookupMsg) -> bool {
    v matches JsonVal::Obj(fs)
    && Some(m.collection_ticker) == spec_req_str(fs@, "collection_ticker"@)
    && Some(m.market_ticker) == spec_req_str(fs@, "market_ticker"@)
    && (spec_obj_get(fs@, "selected_markets"@) matches Some(sm)
        && m.selected_markets@ == spec_selected_markets(sm))
}

fn parse_multivariate(v: &JsonVal) -> (r: Option<MultivariateLookupMsg>)
    ensures
        r is Some <==> spec_multivariate_ok(*v),
        r matches Some(m) ==> spec_multivariate_matches(*v, m),
{
    match v {
        JsonVal::Obj(fs) => {
            let collection_ticker = match req_str(fs, "collection_ticker") {
                Some(x) => x,
                None => {
                    return None;
                },
            };
            let market_ticker = match req_str(fs, "market_ticker") {
                Some(x) => x,
                None => {
                    return None;
                },
            };
            let selected_markets = match obj_get(fs, "selected_markets") {
                Some(f) => match parse_selected_markets(f) {
                    Some(x) => x,
                    None => {
                        return None;
                    },
                },
                None => {
                    return None;
                },
            };
            Some(MultivariateLookupMsg { collection_ticker, market_ticker, selected_markets })
        },
        _ => None,
    }
}

// --- The envelope and the dispatch ---

/// Whether the envelope's own fields are well-typed: `type` a string, and
/// `sid`, `seq`, `id` absent, null or integers of the right size.
pub open spec fn spec_envelope_ok(fs: Seq<(String, JsonVal)>) -> bool {
    spec_req_str(fs, "type"@) is Some
    && spec_opt_i32(fs, "sid"@) is Some
    && spec_opt_i64(fs, "seq"@) is Some
    && spec_opt_i32(fs, "id"@) is Some
}

/// The payload a frame carries: its `msg` field, with a missing or null
/// field standing in as JSON null.
pub open spec fn spec_payload_of(fs: Seq<(String, JsonVal)>) -> JsonVal {
    match spec_obj_get(fs, "msg"@) {
        None => JsonVal::Null,
        Some(JsonVal::Null) => JsonVal::Null,
        Some(v) => v,
    }
}

/// The `type` strings this codec recognizes.
pub open spec fn spec_known_type(t: Seq<char>) -> bool {
    ||| t == "subscribed"@
    ||| t == "ok"@
    ||| t == "error"@
    ||| t == "orderbook_snapshot"@
    ||| t == "orderbook_delta"@
    ||| t == "ticker"@
    ||| t == "trade"@
    ||| t == "fill"@
    ||| t == "market_position"@
    ||| t == "market_lifecycle_v2"@
    ||| t == "event_lifecycle"@
    ||| t == "multivariate_lookup"@
    ||| t == "rfq_created"@
    ||| t == "quote_created"@
    ||| t == "quote_accepted"@
}

/// The codec's whole contract: which result decoding a document must give.
///
/// A document that is not an object, or whose envelope fields are
/// ill-typed, is an envelope error.  A recognized `type` whose payload
/// fails its schema is a payload error.  An unrecognized `type` decodes to
/// `Unknown`, carrying the document itself.
pub open spec fn decodes_to(doc: JsonVal, r: Result<WebSocketMessage, DecodeError>) -> bool {
    match doc {
        JsonVal::Obj(fs) => {
            if !spec_envelope_ok(fs@) {
                r == Err::<WebSocketMessage, DecodeError>(DecodeError::Envelope)
            } else {
                let t = spec_req_str(fs@, "type"@).unwrap()@;
                let payload = spec_payload_of(fs@);
                if t == "subscribed"@ {
                    match spec_parse_subscribed(payload) {
                        Some(m) => r == Ok::<WebSocketMessage, DecodeError>(
                            WebSocketMessage::Subscribed(m),
                        ),
                        None => r == Err::<WebSocketMessage, DecodeError>(DecodeError::Payload),
                    }
                } else if t == "ok"@ {
                    r == Ok::<WebSocketMessage, DecodeError>(WebSocketMessage::Ack(OkMsg {
                        sid: spec_opt_i32(fs@, "sid"@).unwrap().unwrap_or(0),
                        seq: spec_opt_i64(fs@, "seq"@).unwrap().unwrap_or(0),
                    }))
                } else if t == "error"@ {
                    match spec_parse_error(payload) {
                        Some(m) => r == Ok::<WebSocketMessage, DecodeError>(
                            WebSocketMessage::Error(m),
                        ),
                        None => r == Err::<WebSocketMessage, DecodeError>(DecodeError::Payload),
                    }
                } else if t == "orderbook_snapshot"@ {
                    if spec_snapshot_ok(payload) {
                        r matches Ok(WebSocketMessage::OrderbookSnapshot(m))
                            && spec_snapshot_matches(payload, m)
                    } else {
                        r == Err::<WebSocketMessage, DecodeError>(DecodeError::Payload)
                    }
                } else if t == "orderbook_delta"@ {
                    match spec_parse_orderbook_delta(payload) {
                        Some(m) => r == Ok::<WebSocketMessage, DecodeError>(
                            WebSocketMessage::OrderbookDelta(m),
                        ),
                        None => r == Err::<WebSocketMessage, DecodeError>(DecodeError::Payload),
                    }
                } else if t == "ticker"@ {
                    match spec_parse_ticker(payload) {
                        Some(m) => r == Ok::<WebSocketMessage, DecodeError>(
                            WebSocketMessage::Ticker(m),
                        ),
                        None => r == Err::<WebSocketMessage, DecodeError>(DecodeError::Payload),
                    }
                } else if t == "trade"@ {
                    match spec_parse_trade(payload) {
                        Some(m) => r == Ok::<WebSocketMessage, DecodeError>(
                            WebSocketMessage::Trade(m),
                        ),
                        None => r == Err::<WebSocketMessage, DecodeError>(DecodeError::Payload),
                    }
                } else if t == "fill"@ {
                    match spec_parse_fill(payload) {
                        Some(m) => r == Ok::<WebSocketMessage, DecodeError>(
                            WebSocketMessage::Fill(m),
                        ),
                        None => r == Err::<WebSocketMessage, DecodeError>(DecodeError::Payload),
                    }
                } else if t == "market_position"@ {
                    match spec_parse_market_position(payload) {
                        Some(m) => r == Ok::<WebSocketMessage, DecodeError>(
                            WebSocketMessage::MarketPosition(m),
                        ),
                        None => r == Err::<WebSocketMessage, DecodeError>(DecodeError::Payload),
                    }
                } else if t == "market_lifecycle_v2"@ {
                    match spec_parse_market_lifecycle(payload) {
                        Some(m) => r == Ok::<WebSocketMessage, DecodeError>(
                            WebSocketMessage::MarketLifecycle(m),
                        ),
                        None => r == Err::<WebSocketMessage, DecodeError>(DecodeError::Payload),
                    }
                } else if t == "event_lifecycle"@ {
                    match spec_parse_event_lifecycle(payload) {
                        Some(m) => r == Ok::<WebSocketMessage, DecodeError>(
                            WebSocketMessage::EventLifecycle(m),
                        ),
                        None => r == Err::<WebSocketMessage, DecodeError>(DecodeError::Payload),
                    }
                } else if t == "multivariate_lookup"@ {
                    if spec_multivariate_ok(payload) {
                        r matches Ok(WebSocketMessage::MultivariateLookup(m))
                            && spec_multivariate_matches(payload, m)
                    } else {
                        r == Err::<WebSocketMessage, DecodeError>(DecodeError::Payload)
                    }
                } else if t == "rfq_created"@ {
                    match spec_parse_rfq_created(payload) {
                        Some(m) => r == Ok::<WebSocketMessage, DecodeError>(
                            WebSocketMessage::RfqCreated(m),
                        ),
                        None => r == Err::<WebSocketMessage, DecodeError>(DecodeError::Payload),
                    }
                } else if t == "quote_created"@ {
                    match spec_parse_quote_created(payload) {
                        Some(m) => r == Ok::<WebSocketMessage, DecodeError>(
                            WebSocketMessage::QuoteCreated(m),
                        ),
                        None => r == Err::<WebSocketMessage, DecodeError>(DecodeError::Payload),
                    }
                } else if t == "quote_accepted"@ {
                    match spec_parse_quote_accepted(payload) {
                        Some(m) => r == Ok::<WebSocketMessage, DecodeError>(
                            WebSocketMessage::QuoteAccepted(m),
                        ),
                        None => r == Err::<WebSocketMessage, DecodeError>(DecodeError::Payload),
                    }
                } else {
                    r == Ok::<WebSocketMessage, DecodeError>(WebSocketMessage::Unknown(doc))
                }
            }
        },
        _ => r == Err::<WebSocketMessage, DecodeError>(DecodeError::Envelope),
    }
}

/// Decodes every known `type`; yields `Ok(None)` for an unrecognized one.
fn decode_known(doc: &JsonVal) -> (r: Result<Option<WebSocketMessage>, DecodeError>)
    ensures
        r matches Ok(Some(m)) ==> decodes_to(*doc, Ok(m)),
        r matches Err(e) ==> decodes_to(*doc, Err(e)),
        r matches Ok(None) ==> {
            &&& *doc matches JsonVal::Obj(fs)
            &&& spec_envelope_ok(fs@)
            &&& !spec_known_type(spec_req_str(fs@, "type"@).unwrap()@)
        },
{
    match doc {
        JsonVal::Obj(fs) => {
            let t = match req_str(fs, "type") {
                Some(x) => x,
                None => {
                    return Err(DecodeError::Envelope);
                },
            };
            let sid = match opt_i32(fs, "sid") {
                Some(x) => x,
                None => {
                    return Err(DecodeError::Envelope);
                },
            };
            let seq = match opt_i64(fs, "seq") {
                Some(x) => x,
                None => {
                    return Err(DecodeError::Envelope);
                },
            };
            match opt_i32(fs, "id") {
                Some(_) => {},
                None => {
                    return Err(DecodeError::Envelope);
                },
            };
            let null_payload = JsonVal::Null;
            let payload: &JsonVal = match obj_get(fs, "msg") {
                Some(f) => match f {
                    JsonVal::Null => &null_payload,
                    _ => f,
                },
                None => &null_payload,
            };
            assert(*payload == spec_payload_of(fs@));
            if str_eq(t.as_str(), "subscribed") {
                match parse_subscribed(payload) {
                    Some(m) => Ok(Some(WebSocketMessage::Subscribed(m))),
                    None => Err(DecodeError::Payload),
                }
            } else if str_eq(t.as_str(), "ok") {
                Ok(Some(WebSocketMessage::Ack(OkMsg {
                    sid: sid.unwrap_or(0),
                    seq: seq.unwrap_or(0),
                })))
            } else if str_eq(t.as_str(), "error") {
                match parse_error(payload) {
                    Some(m) => Ok(Some(WebSocketMessage::Error(m))),
                    None => Err(DecodeError::Payload),
                }
            } else if str_eq(t.as_str(), "orderbook_snapshot") {
                match parse_snapshot(payload) {
                    Some(m) => Ok(Some(WebSocketMessage::OrderbookSnapshot(m))),
                    None => Err(DecodeError::Payload),
                }
            } else if str_eq(t.as_str(), "orderbook_delta") {
                match parse_orderbook_delta(payload) {
                    Some(m) => Ok(Some(WebSocketMessage::OrderbookDelta(m))),
                    None => Err(DecodeError::Payload),
                }
            } else if str_eq(t.as_str(), "ticker") {
                match parse_ticker(payload) {
                    Some(m) => Ok(Some(WebSocketMessage::Ticker(m))),
                    None => Err(DecodeError::Payload),
                }
            } else if str_eq(t.as_str(), "trade") {
                match parse_trade(payload) {
                    Some(m) => Ok(Some(WebSocketMessage::Trade(m))),
                    None => Err(DecodeError::Payload),
                }
            } else if str_eq(t.as_str(), "fill") {
                match parse_fill(payload) {
                    Some(m) => Ok(Some(WebSocketMessage::Fill(m))),
                    None => Err(DecodeError::Payload),
                }
            } else if str_eq(t.as_str(), "market_position") {
                match parse_market_position(payload) {
                    Some(m) => Ok(Some(WebSocketMessage::MarketPosition(m))),
                    None => Err(DecodeError::Payload),
                }
            } else if str_eq(t.as_str(), "market_lifecycle_v2") {
                match parse_market_lifecycle(payload) {
                    Some(m) => Ok(Some(WebSocketMessage::MarketLifecycle(m))),
                    None => Err(DecodeError::Payload),
                }
            } else if str_eq(t.as_str(), "event_lifecycle") {
                match parse_event_lifecycle(payload) {
                    Some(m) => Ok(Some(WebSocketMessage::EventLifecycle(m))),
                    None => Err(DecodeError::Payload),
                }
            } else if str_eq(t.as_str(), "multivariate_lookup") {
                match parse_multivariate(payload) {
                    Some(m) => Ok(Some(WebSocketMessage::MultivariateLookup(m))),
                    None => Err(DecodeError::Payload),
                }
            } else if str_eq(t.as_str(), "rfq_created") {
                match parse_rfq_created(payload) {
                    Some(m) => Ok(Some(WebSocketMessage::RfqCreated(m))),
                    None => Err(DecodeError::Payload),
                }
            } else if str_eq(t.as_str(), "quote_created") {
                match parse_quote_created(payload) {
                    Some(m) => Ok(Some(WebSocketMessage::QuoteCreated(m))),
                    None => Err(DecodeError::Payload),
                }
            } else if str_eq(t.as_str(), "quote_accepted") {
                match parse_quote_accepted(payload) {
                    Some(m) => Ok(Some(WebSocketMessage::QuoteAccepted(m))),
                    None => Err(DecodeError::Payload),
                }
            } else {
                Ok(None)
            }
        },
        _ => Err(DecodeError::Envelope),
    }
}

/// Decodes one parsed document into a message.
pub fn decode(doc: JsonVal) -> (r: Result<WebSocketMessage, DecodeError>)
    ensures
        decodes_to(doc, r),
{
    match decode_known(&doc) {
        Ok(Some(m)) => Ok(m),
        Ok(None) => Ok(WebSocketMessage::Unknown(doc)),
        Err(e) => Err(e),
    }
}

/// What parsing a raw text frame must yield.
pub open spec fn spec_parse_frame(t: Seq<char>, r: Result<WebSocketMessage, DecodeError>) -> bool {
    match json_of(t) {
        Some(doc) => decodes_to(doc, r),
        None => r == Err::<WebSocketMessage, DecodeError>(DecodeError::Envelope),
    }
}

impl WebSocketMessage {
    /// Parse a raw WebSocket text frame into a typed message.
    pub fn parse(text: &str) -> (r: Result<WebSocketMessage, DecodeError>)
        ensures
            spec_parse_frame(text@, r),
    {
        match parse_json(text) {
            Some(doc) => decode(doc),
            None => Err(DecodeError::Envelope),
        }
    }
}

} // verus!
