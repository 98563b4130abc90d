use kalshi::OrderCreationField;
use kalshi::{Action, OrderType, SelfTradePreventionType, Side, TimeInForce};

#[test]
fn order_params_tests_test_time_in_force_enum_serialization() {
    let fok = TimeInForce::FillOrKill;
    let gtc = TimeInForce::GoodTillCanceled;
    let ioc = TimeInForce::ImmediateOrCancel;
    let fok_json = format!("\"{}\"", fok.wire_name());
    let gtc_json = format!("\"{}\"", gtc.wire_name());
    let ioc_json = format!("\"{}\"", ioc.wire_name());
    assert_eq!(fok_json, "\"fill_or_kill\"");
    assert_eq!(gtc_json, "\"good_till_canceled\"");
    assert_eq!(ioc_json, "\"immediate_or_cancel\"");
}

#[test]
fn order_params_tests_test_self_trade_prevention_type_serialization() {
    let taker = SelfTradePreventionType::TakerAtCross;
    let maker = SelfTradePreventionType::Maker;
    let taker_json = format!("\"{}\"", taker.wire_name());
    let maker_json = format!("\"{}\"", maker.wire_name());
    assert_eq!(taker_json, "\"taker_at_cross\"");
    assert_eq!(maker_json, "\"maker\"");
}

#[test]
fn order_params_tests_test_order_creation_field_new_params() {
    let field = OrderCreationField {
        action: Action::Buy,
        client_order_id: Some("test-123".to_string()),
        count: 10,
        side: Side::Yes,
        ticker: "TEST-TICKER".to_string(),
        input_type: OrderType::Limit,
        buy_max_cost: None,
        expiration_ts: None,
        yes_price: Some(50),
        no_price: None,
        sell_position_floor: None,
        yes_price_dollars: None,
        no_price_dollars: None,
        time_in_force: Some(TimeInForce::GoodTillCanceled),
        post_only: Some(true),
        reduce_only: None,
        self_trade_prevention_type: Some(SelfTradePreventionType::Maker),
        order_group_id: Some("group-123".to_string()),
        cancel_order_on_pause: Some(false),
    };
    assert_eq!(field.time_in_force, Some(TimeInForce::GoodTillCanceled));
    assert_eq!(field.post_only, Some(true));
}

#[test]
fn test_order_creation_field_get_params() {
    let field = OrderCreationField {
        action: Action::Sell,
        client_order_id: None,
        count: 3,
        side: Side::No,
        ticker: "T".to_string(),
        input_type: OrderType::Market,
        buy_max_cost: Some(100),
        expiration_ts: Some(99),
        yes_price: None,
        no_price: Some(45),
        sell_position_floor: Some(0),
        yes_price_dollars: None,
        no_price_dollars: Some("0.4500".to_string()),
        time_in_force: None,
        post_only: None,
        reduce_only: None,
        self_trade_prevention_type: None,
        order_group_id: None,
        cancel_order_on_pause: None,
    };
    let (action, client_order_id, count, side, ticker, input_type, buy_max_cost, expiration_ts, yes_price, no_price, sell_position_floor, yes_price_dollars, no_price_dollars) =
        field.get_params();
    assert_eq!(action, Action::Sell);
    assert_eq!(client_order_id, None);
    assert_eq!(count, 3);
    assert_eq!(side, Side::No);
    assert_eq!(ticker, "T");
    assert_eq!(input_type, OrderType::Market);
    assert_eq!(buy_max_cost, Some(100));
    assert_eq!(expiration_ts, Some(99));
    assert_eq!(yes_price, None);
    assert_eq!(no_price, Some(45));
    assert_eq!(sell_position_floor, Some(0));
    assert_eq!(yes_price_dollars, None);
    assert_eq!(no_price_dollars, Some("0.4500".to_string()));
}
