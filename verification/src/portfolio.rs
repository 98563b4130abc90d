//! Portfolio-side data models: orders, fills, settlements and positions.
//!
//! These are the typed values that the exchange's portfolio endpoints and the
//! streaming fill/position channels speak of.  They carry no behaviour of
//! their own beyond [`OrderCreationField::get_params`].

use vstd::prelude::*;
use crate::strings::str_eq;

verus! {

/// The side of a market position in the Kalshi exchange.
///
/// This enum is used to indicate whether a market position, order, or trade
/// is associated with the 'Yes' or 'No' outcome of a market event.
#[derive(Debug, Clone, Copy, PartialEq, Eq, Structural)]
pub enum Side {
    /// A position, order, or trade on the 'Yes' outcome of a market event.
    Yes,
    /// A position, order, or trade on the 'No' outcome of a market event.
    No,
}

/// The type of action a user wants to take in an order: buying or selling.
#[derive(Debug, Clone, Copy, PartialEq, Eq, Structural)]
pub enum Action {
    /// Represents a buy action.
    Buy,
    /// Represents a sell action.
    Sell,
}

/// The status of an order in the Kalshi exchange, from creation to
/// completion or cancellation.
#[derive(Debug, Clone, Copy, PartialEq, Eq, Structural)]
pub enum OrderStatus {
    /// The order is active but not fully filled and still in the order book.
    Resting,
    /// The order has been canceled and is no longer active.
    Canceled,
    /// The order has been fully executed.
    Executed,
    /// The order has been created and is awaiting further processing.
    Pending,
}

/// The nature of an order, particularly how it interacts with the market.
#[derive(Debug, Clone, Copy, PartialEq, Eq, Structural)]
pub enum OrderType {
    /// A market order is executed immediately at the current market price.
    Market,
    /// A limit order is executed at a specific price or better.
    Limit,
}

/// How long an order remains active before it is executed or expires.
#[derive(Debug, Clone, Copy, PartialEq, Eq, Structural)]
pub enum TimeInForce {
    /// Execute the whole order immediately or cancel it.
    FillOrKill,
    /// Keep the order active until it is filled or canceled.
    GoodTillCanceled,
    /// Execute what can be executed immediately and cancel the rest.
    ImmediateOrCancel,
}

/// How the exchange prevents an order from trading against the same user's
/// own resting orders.
#[derive(Debug, Clone, Copy, PartialEq, Eq, Structural)]
pub enum SelfTradePreventionType {
    /// Cancel the taker side when it would cross the user's own order.
    TakerAtCross,
    /// Cancel the resting maker side instead.
    Maker,
}

/// Represents an order in the Kalshi exchange.
///
/// This struct details an individual order, including its identification,
/// status, prices, and various metrics related to its lifecycle.
#[derive(Debug, PartialEq)]
pub struct Order {
    /// Unique identifier for the order.
    pub order_id: String,
    /// Identifier of the user who placed the order. Optional.
    pub user_id: Option<String>,
    /// Ticker of the market associated with the order.
    pub ticker: String,
    /// Current status of the order (e.g., resting, executed).
    pub status: OrderStatus,
    /// Price of the 'Yes' option in the order (cents).
    pub yes_price: i32,
    /// Price of the 'No' option in the order (cents).
    pub no_price: i32,
    /// Timestamp when the order was created. Optional.
    pub created_time: Option<String>,
    /// Last update time of the order. Optional.
    pub last_update_time: Option<String>,
    /// Expiration time of the order. Optional (often null).
    pub expiration_time: Option<String>,
    /// Total fills reported for the order.
    pub fill_count: Option<i32>,
    /// Initial order size.
    pub initial_count: Option<i32>,
    /// Remaining count of the order. Optional.
    pub remaining_count: Option<i32>,
    /// Position of the order in the queue. Optional.
    pub queue_position: Option<i32>,
    /// Count of taker fills.
    pub taker_fill_count: Option<i32>,
    /// Count of placements.
    pub place_count: Option<i32>,
    /// Count of decreases.
    pub decrease_count: Option<i32>,
    /// Count of maker fills.
    pub maker_fill_count: Option<i32>,
    /// Count of FCC cancellations.
    pub fcc_cancel_count: Option<i32>,
    /// Count of close-driven cancellations.
    pub close_cancel_count: Option<i32>,
    /// Fees incurred as a taker (cents).
    pub taker_fees: Option<i32>,
    /// Taker fees in dollars (string, sometimes null).
    pub taker_fees_dollars: Option<String>,
    /// Total cost of taker fills (cents).
    pub taker_fill_cost: Option<i32>,
    /// Taker fill cost in dollars (string).
    pub taker_fill_cost_dollars: Option<String>,
    /// Maker fees (cents).
    pub maker_fees: Option<i32>,
    /// Maker fees in dollars (string, sometimes null).
    pub maker_fees_dollars: Option<String>,
    /// Total cost of maker fills (cents).
    pub maker_fill_cost: Option<i32>,
    /// Maker fill cost in dollars (string).
    pub maker_fill_cost_dollars: Option<String>,
    /// Yes price as a dollar string.
    pub yes_price_dollars: Option<String>,
    /// No price as a dollar string.
    pub no_price_dollars: Option<String>,
    /// The action (buy/sell) of the order.
    pub action: Action,
    /// The side (Yes/No) of the order.
    pub side: Side,
    /// Type of the order (e.g., "limit").
    pub order_type: String,
    /// Client-side identifier for the order.
    pub client_order_id: String,
    /// Group identifier for the order (nullable).
    pub order_group_id: Option<String>,
    /// Self-trade prevention type (nullable).
    pub self_trade_prevention_type: Option<String>,
}

/// A completed transaction (a 'fill') in the Kalshi exchange.
///
/// This struct details a single fill instance, including the action taken,
/// the quantity, the involved prices, and the identifiers of the order and
/// trade.
#[derive(Debug, PartialEq)]
pub struct Fill {
    /// The action (buy/sell) of the fill.
    pub action: Action,
    /// The number of contracts or shares involved in the fill.
    pub count: i32,
    /// The timestamp when the fill was created.
    pub created_time: String,
    /// Indicates if the fill was made by a taker.
    pub is_taker: bool,
    /// The price of the 'No' option in the fill.
    pub no_price: i64,
    /// The identifier of the associated order.
    pub order_id: String,
    /// The side (Yes/No) of the fill.
    pub side: Side,
    /// The ticker of the market in which the fill occurred.
    pub ticker: String,
    /// The unique identifier of the trade.
    pub trade_id: String,
    /// The price of the 'Yes' option in the fill.
    pub yes_price: i64,
}

/// A settlement of a market position in the Kalshi exchange.
///
/// This struct provides details of a market settlement, including the
/// result, quantities, costs involved, and the timestamp of settlement.
#[derive(Debug, PartialEq)]
pub struct Settlement {
    /// The result of the market settlement.
    pub market_result: String,
    /// The quantity involved in the 'No' position.
    pub no_count: i64,
    /// The total cost associated with the 'No' position.
    pub no_total_cost: i64,
    /// The revenue generated from the settlement, in cents.
    pub revenue: i64,
    /// The timestamp when the settlement occurred.
    pub settled_time: String,
    /// The ticker of the market that was settled.
    pub ticker: String,
    /// The quantity involved in the 'Yes' position.
    pub yes_count: i64,
    /// The total cost associated with the 'Yes' position, in cents.
    pub yes_total_cost: i64,
}

/// A user's position in a specific event on the Kalshi exchange.
///
/// Details the user's exposure, costs, profits, and the number of resting
/// orders related to a particular event.
#[derive(Debug, PartialEq)]
pub struct EventPosition {
    /// The total exposure amount in the event.
    pub event_exposure: i64,
    /// The ticker of the event.
    pub event_ticker: String,
    /// The total fees paid in the event in cents.
    pub fees_paid: i64,
    /// The realized profit or loss in the event in cents.
    pub realized_pnl: i64,
    /// The count of resting (active but unfilled) orders in the event.
    pub resting_order_count: i32,
    /// The total cost incurred in the event in cents.
    pub total_cost: i64,
}

/// A user's position in a specific market on the Kalshi exchange.
///
/// This struct includes details about the user's market position, including
/// exposure, fees, profits, and the number of resting orders.
#[derive(Debug, PartialEq)]
pub struct MarketPosition {
    /// The total fees paid in the market in cents.
    pub fees_paid: i64,
    /// The total exposure amount in the market.
    pub market_exposure: i64,
    /// The current position of the user in the market.
    pub position: i32,
    /// The realized profit or loss in the market in cents.
    pub realized_pnl: i64,
    /// The count of resting orders in the market.
    pub resting_orders_count: i32,
    /// The ticker of the market.
    pub ticker: String,
    /// The total traded amount in the market.
    pub total_traded: i64,
}

/// A group of orders sharing a contracts limit.
#[derive(Debug, PartialEq)]
pub struct OrderGroup {
    /// The group's identifier.
    pub id: String,
    /// The maximum number of contracts the group may accumulate.
    pub contracts_limit: i32,
    /// The number of contracts currently accumulated.
    pub total_contracts: Option<i32>,
    /// The orders that belong to the group.
    pub order_ids: Vec<String>,
    /// When the group was created.
    pub created_time: String,
}

/// Where an order stands in the queue at its price level.
#[derive(Debug, PartialEq)]
pub struct OrderQueuePosition {
    /// The identifier of the order.
    pub order_id: String,
    /// The number of contracts queued ahead of the order.
    pub queue_position: Option<i64>,
    /// The total depth of the queue at the order's price level.
    pub total_queue_depth: Option<i64>,
}

/// Represents the necessary fields for creating an order in the Kalshi
/// exchange.
///
/// This struct encapsulates all the data needed to create a new order: the
/// order type, the action being taken (buy/sell), the market ticker, and
/// various optional parameters that fine-tune the order.
#[derive(Debug, PartialEq)]
pub struct OrderCreationField {
    /// The action (buy/sell) of the order.
    pub action: Action,
    /// Client-side identifier for the order. Optional.
    pub client_order_id: Option<String>,
    /// The number of contracts or shares involved in the order.
    pub count: i32,
    /// The side (Yes/No) of the order.
    pub side: Side,
    /// Ticker of the market associated with the order.
    pub ticker: String,
    /// Type of the order (e.g., market, limit).
    pub input_type: OrderType,
    /// The maximum cost the buyer is willing to incur. Optional.
    pub buy_max_cost: Option<i64>,
    /// Expiration time of the order. Optional.
    pub expiration_ts: Option<i64>,
    /// Price of the 'No' option in the order (in cents). Optional.
    pub no_price: Option<i64>,
    /// The minimum position the seller will hold after selling. Optional.
    pub sell_position_floor: Option<i32>,
    /// Price of the 'Yes' option in the order (in cents). Optional.
    pub yes_price: Option<i64>,
    /// Price of the 'Yes' option in dollars (e.g., "0.5000"). Optional.
    pub yes_price_dollars: Option<String>,
    /// Price of the 'No' option in dollars (e.g., "0.5000"). Optional.
    pub no_price_dollars: Option<String>,
    /// How long the order stays active. Optional.
    pub time_in_force: Option<TimeInForce>,
    /// Whether the order may only rest, never take. Optional.
    pub post_only: Option<bool>,
    /// Whether the order may only reduce an existing position. Optional.
    pub reduce_only: Option<bool>,
    /// How self-trades are prevented for this order. Optional.
    pub self_trade_prevention_type: Option<SelfTradePreventionType>,
    /// The order group this order belongs to. Optional.
    pub order_group_id: Option<String>,
    /// Whether to cancel the order when the market pauses. Optional.
    pub cancel_order_on_pause: Option<bool>,
}

impl OrderCreationField {
    /// Breaks the field set into the positional parameter tuple that order
    /// placement takes.
    pub fn get_params(
        self,
    ) -> (r: (
        Action,
        Option<String>,
        i32,
        Side,
        String,
        OrderType,
        Option<i64>,
        Option<i64>,
        Option<i64>,
        Option<i64>,
        Option<i32>,
        Option<String>,
        Option<String>,
    ))
        ensures
            r == (
                self.action,
                self.client_order_id,
                self.count,
                self.side,
                self.ticker,
                self.input_type,
                self.buy_max_cost,
                self.expiration_ts,
                self.yes_price,
                self.no_price,
                self.sell_position_floor,
                self.yes_price_dollars,
                self.no_price_dollars,
            ),
    {
        (
            self.action,
            self.client_order_id,
            self.count,
            self.side,
            self.ticker,
            self.input_type,
            self.buy_max_cost,
            self.expiration_ts,
            self.yes_price,
            self.no_price,
            self.sell_position_floor,
            self.yes_price_dollars,
            self.no_price_dollars,
        )
    }
}


/// The wire name of each time-in-force value.
pub open spec fn spec_time_in_force_name(t: TimeInForce) -> Seq<char> {
    match t {
        TimeInForce::FillOrKill => "fill_or_kill"@,
        TimeInForce::GoodTillCanceled => "good_till_canceled"@,
        TimeInForce::ImmediateOrCancel => "immediate_or_cancel"@,
    }
}

/// The time-in-force value, if any, a wire name denotes.
pub open spec fn spec_parse_time_in_force(s: Seq<char>) -> Option<TimeInForce> {
    if s == "fill_or_kill"@ {
        Some(TimeInForce::FillOrKill)
    } else if s == "good_till_canceled"@ {
        Some(TimeInForce::GoodTillCanceled)
    } else if s == "immediate_or_cancel"@ {
        Some(TimeInForce::ImmediateOrCancel)
    } else {
        None
    }
}

impl TimeInForce {
    /// The value's stable wire name.
    pub fn wire_name(&self) -> (s: String)
        ensures
            s@ == spec_time_in_force_name(*self),
    {
        match self {
            TimeInForce::FillOrKill => String::from_str("fill_or_kill"),
            TimeInForce::GoodTillCanceled => String::from_str("good_till_canceled"),
            TimeInForce::ImmediateOrCancel => String::from_str("immediate_or_cancel"),
        }
    }
}

/// Parses a time-in-force wire name.
pub fn parse_time_in_force(s: &str) -> (r: Option<TimeInForce>)
    ensures
        r == spec_parse_time_in_force(s@),
{
    if str_eq(s, "fill_or_kill") {
        Some(TimeInForce::FillOrKill)
    } else if str_eq(s, "good_till_canceled") {
        Some(TimeInForce::GoodTillCanceled)
    } else if str_eq(s, "immediate_or_cancel") {
        Some(TimeInForce::ImmediateOrCancel)
    } else {
        None
    }
}

/// The wire name of each self-trade prevention type.
pub open spec fn spec_stp_name(t: SelfTradePreventionType) -> Seq<char> {
    match t {
        SelfTradePreventionType::TakerAtCross => "taker_at_cross"@,
        SelfTradePreventionType::Maker => "maker"@,
    }
}

/// The self-trade prevention type, if any, a wire name denotes.
pub open spec fn spec_parse_stp(s: Seq<char>) -> Option<SelfTradePreventionType> {
    if s == "taker_at_cross"@ {
        Some(SelfTradePreventionType::TakerAtCross)
    } else if s == "maker"@ {
        Some(SelfTradePreventionType::Maker)
    } else {
        None
    }
}

impl SelfTradePreventionType {
    /// The value's stable wire name.
    pub fn wire_name(&self) -> (s: String)
        ensures
            s@ == spec_stp_name(*self),
    {
        match self {
            SelfTradePreventionType::TakerAtCross => String::from_str("taker_at_cross"),
            SelfTradePreventionType::Maker => String::from_str("maker"),
        }
    }
}

/// Parses a self-trade prevention wire name.
pub fn parse_self_trade_prevention(s: &str) -> (r: Option<SelfTradePreventionType>)
    ensures
        r == spec_parse_stp(s@),
{
    if str_eq(s, "taker_at_cross") {
        Some(SelfTradePreventionType::TakerAtCross)
    } else if str_eq(s, "maker") {
        Some(SelfTradePreventionType::Maker)
    } else {
        None
    }
}

} // verus!
