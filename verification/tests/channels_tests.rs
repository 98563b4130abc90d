use kalshi::Channel;
use kalshi::parse_channel;
use kalshi::json::{JsonVal, parse_json};

#[test]
fn channels_test_channel_display() {
    assert_eq!(Channel::OrderbookDelta.wire_name(), "orderbook_delta");
    assert_eq!(Channel::Ticker.wire_name(), "ticker");
    assert_eq!(Channel::Trade.wire_name(), "trade");
    assert_eq!(Channel::Fill.wire_name(), "fill");
    assert_eq!(Channel::MarketPosition.wire_name(), "market_position");
    assert_eq!(Channel::MarketLifecycleV2.wire_name(), "market_lifecycle_v2");
    assert_eq!(Channel::EventLifecycle.wire_name(), "event_lifecycle");
    assert_eq!(Channel::Multivariate.wire_name(), "multivariate");
    assert_eq!(Channel::Communications.wire_name(), "communications");
}

#[test]
fn channels_test_channel_requires_auth() {
    // Public channels
    assert!(!Channel::OrderbookDelta.requires_auth());
    assert!(!Channel::Ticker.requires_auth());
    assert!(!Channel::Trade.requires_auth());
    assert!(!Channel::MarketLifecycleV2.requires_auth());
    assert!(!Channel::EventLifecycle.requires_auth());
    assert!(!Channel::Multivariate.requires_auth());

    // Private channels
    assert!(Channel::Fill.requires_auth());
    assert!(Channel::MarketPosition.requires_auth());
    assert!(Channel::Communications.requires_auth());
}

#[test]
fn test_channel_serialization() {
    let json = format!("\"{}\"", Channel::OrderbookDelta.wire_name());
    assert_eq!(json, "\"orderbook_delta\"");

    let json = format!("\"{}\"", Channel::Fill.wire_name());
    assert_eq!(json, "\"fill\"");

    let json = format!("\"{}\"", Channel::MarketLifecycleV2.wire_name());
    assert_eq!(json, "\"market_lifecycle_v2\"");
}

fn channel_from_json(text: &str) -> Option<Channel> {
    match parse_json(text) {
        Some(JsonVal::Str(s)) => parse_channel(&s),
        _ => None,
    }
}

#[test]
fn test_channel_deserialization() {
    let channel = channel_from_json("\"orderbook_delta\"").unwrap();
    assert_eq!(channel, Channel::OrderbookDelta);

    let channel = channel_from_json("\"fill\"").unwrap();
    assert_eq!(channel, Channel::Fill);

    let channel = channel_from_json("\"market_lifecycle_v2\"").unwrap();
    assert_eq!(channel, Channel::MarketLifecycleV2);
}

#[test]
fn test_channel_name_round_trip() {
    let all = [
        Channel::OrderbookDelta,
        Channel::Ticker,
        Channel::Trade,
        Channel::Fill,
        Channel::MarketPosition,
        Channel::MarketLifecycleV2,
        Channel::EventLifecycle,
        Channel::Multivariate,
        Channel::Communications,
    ];
    for c in all {
        let name = c.wire_name();
        assert_eq!(parse_channel(&name), Some(c));
    }
}
