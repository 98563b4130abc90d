//! Client library for the Kalshi exchange's real-time streaming API.
//!
//! The heart of the crate is a verified protocol engine for the exchange's
//! WebSocket interface: a message codec that classifies every inbound frame,
//! a registry of server-confirmed subscriptions, a correlator that matches
//! asynchronous control replies to the command that caused them, and an
//! event-driven connection engine that ties the three together.  The caller
//! owns the socket; the engine owns every decision about what a frame means
//! and what must be sent.
//!
//! The surrounding typed data models of the exchange's REST surface are
//! carried as plain values; the request plumbing around them is not part of
//! this crate.

pub mod api_keys;
pub mod channels;
pub mod communications;
pub mod connection;
pub mod correlator;
pub mod events;
pub mod exchange;
pub mod json;
pub mod market;
pub mod messages;
pub mod portfolio;
pub mod registry;
pub mod strings;
pub mod subscription;
pub mod wire;

pub use api_keys::{ApiKey, ApiKeyCreated, ApiKeySecret};
pub use channels::{Channel, parse_channel};
pub use communications::{CreateQuoteResponse, CreateRfqResponse, QuoteConfirmed};
pub use connection::{KalshiError, KalshiWebSocket, StreamStep, TradingEnvironment, WsEvent};
pub use correlator::{CommandResponse, Correlator};
pub use events::Candlestick;
pub use exchange::{
    DaySchedule, ExchangeAnnouncement, ExchangeSchedule, ExchangeStatus, MaintenanceWindow,
    StandardHours, UserDataTimestamp,
};
pub use json::JsonVal;
pub use market::{
    Candle, MarketCandlesticks, MarketStatus, MveFilter, SettlementResult, SettlementSource,
    Snapshot, Trade,
};
pub use messages::{
    DecodeError, ErrorMsg, EventLifecycleMsg, FillMsg, MarketLifecycleEvent, MarketLifecycleMsg,
    MarketPositionMsg, MultivariateLookupMsg, OkMsg, OrderbookDeltaMsg, OrderbookSnapshotMsg,
    QuoteAcceptedMsg, QuoteCreatedMsg, RfqCreatedMsg, SelectedMarket, SubscribedMsg, TickerMsg,
    TradeMsg, WebSocketMessage,
};
pub use portfolio::{
    parse_self_trade_prevention, parse_time_in_force,
    Action, EventPosition, Fill, MarketPosition, Order, OrderCreationField, OrderGroup,
    OrderQueuePosition, OrderStatus, OrderType, SelfTradePreventionType, Settlement, Side,
    TimeInForce,
};
pub use registry::{Registry, Subscription};
pub use subscription::{CommandWait, SubscribeResponse, UpdateAction, WaitStep, requested_tickers};
