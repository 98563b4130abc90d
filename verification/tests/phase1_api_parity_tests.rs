use kalshi::OrderCreationField;
use kalshi::{Action, OrderType, Side};
use kalshi::json::{JsonVal, parse_json};
use kalshi::{parse_self_trade_prevention, parse_time_in_force};
use kalshi::{SelfTradePreventionType, TimeInForce};

#[test]
fn phase1_api_parity_tests_test_time_in_force_enum_serialization() {
    let fok = TimeInForce::FillOrKill;
    let gtc = TimeInForce::GoodTillCanceled;
    let ioc = TimeInForce::ImmediateOrCancel;

    let fok_json = format!("\"{}\"", fok.wire_name());
    let gtc_json = format!("\"{}\"", gtc.wire_name());
    let ioc_json = format!("\"{}\"", ioc.wire_name());

    assert_eq!(
        fok_json, "\"fill_or_kill\"",
        "FillOrKill should serialize to snake_case"
    );
    assert_eq!(
        gtc_json, "\"good_till_canceled\"",
        "GoodTillCanceled should serialize to snake_case"
    );
    assert_eq!(
        ioc_json, "\"immediate_or_cancel\"",
        "ImmediateOrCancel should serialize to snake_case"
    );
}

fn time_in_force_from_json(text: &str) -> Option<TimeInForce> {
    match parse_json(text) {
        Some(JsonVal::Str(s)) => parse_time_in_force(&s),
        _ => None,
    }
}

fn stp_from_json(text: &str) -> Option<SelfTradePreventionType> {
    match parse_json(text) {
        Some(JsonVal::Str(s)) => parse_self_trade_prevention(&s),
        _ => None,
    }
}

#[test]
fn test_time_in_force_enum_deserialization() {
    let fok: TimeInForce =
        time_in_force_from_json("\"fill_or_kill\"").expect("Failed to deserialize fill_or_kill");
    let gtc: TimeInForce = time_in_force_from_json("\"good_till_canceled\"")
        .expect("Failed to deserialize good_till_canceled");
    let ioc: TimeInForce = time_in_force_from_json("\"immediate_or_cancel\"")
        .expect("Failed to deserialize immediate_or_cancel");

    // Test roundtrip
    assert_eq!(format!("\"{}\"", fok.wire_name()), "\"fill_or_kill\"");
    assert_eq!(
        format!("\"{}\"", gtc.wire_name()),
        "\"good_till_canceled\""
    );
    assert_eq!(
        format!("\"{}\"", ioc.wire_name()),
        "\"immediate_or_cancel\""
    );
}

#[test]
fn phase1_api_parity_tests_test_self_trade_prevention_type_serialization() {
    let taker = SelfTradePreventionType::TakerAtCross;
    let maker = SelfTradePreventionType::Maker;

    let taker_json = format!("\"{}\"", taker.wire_name());
    let maker_json = format!("\"{}\"", maker.wire_name());

    assert_eq!(
        taker_json, "\"taker_at_cross\"",
        "TakerAtCross should serialize to snake_case"
    );
    assert_eq!(
        maker_json, "\"maker\"",
        "Maker should serialize to lowercase"
    );
}

#[test]
fn test_self_trade_prevention_type_deserialization() {
    let taker: SelfTradePreventionType =
        stp_from_json("\"taker_at_cross\"").expect("Failed to deserialize taker_at_cross");
    let maker: SelfTradePreventionType =
        stp_from_json("\"maker\"").expect("Failed to deserialize maker");

    // Test roundtrip
    assert_eq!(format!("\"{}\"", taker.wire_name()), "\"taker_at_cross\"");
    assert_eq!(format!("\"{}\"", maker.wire_name()), "\"maker\"");
}

#[test]
fn phase1_api_parity_tests_test_order_creation_field_new_params() {
    // Test OrderCreationField struct with new parameters

    let field = OrderCreationField {
        action: Action::Buy,
        client_order_id: Some("test-123".to_string()),
        count: 10,
        side: Side::Yes,
        ticker: "TEST-TICKER".to_string(),
        input_type: OrderType::Limit,
        buy_max_cost: None,
        expiration_ts: None,
        yes_price: Some(50),
        no_price: None,
        sell_position_floor: None,
        yes_price_dollars: None,
        no_price_dollars: None,
        time_in_force: Some(TimeInForce::GoodTillCanceled),
        post_only: Some(true),
        reduce_only: Some(false),
        self_trade_prevention_type: Some(SelfTradePreventionType::Maker),
        order_group_id: Some("group-123".to_string()),
        cancel_order_on_pause: Some(false),
    };

    assert_eq!(field.time_in_force, Some(TimeInForce::GoodTillCanceled));
    assert_eq!(field.post_only, Some(true));
    assert_eq!(field.reduce_only, Some(false));
    assert_eq!(
        field.self_trade_prevention_type,
        Some(SelfTradePreventionType::Maker)
    );
    assert_eq!(field.order_group_id, Some("group-123".to_string()));
    assert_eq!(field.cancel_order_on_pause, Some(false));
}
