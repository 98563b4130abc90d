use kalshi::Channel;
use kalshi::wire::{build_subscribe_cmd, build_unsubscribe_cmd, build_update_cmd, fmt_i32, fmt_i64};

#[test]
fn test_fmt_decimal() {
    assert_eq!(fmt_i32(0), "0");
    assert_eq!(fmt_i32(7), "7");
    assert_eq!(fmt_i32(10), "10");
    assert_eq!(fmt_i32(1234567890), "1234567890");
    assert_eq!(fmt_i32(-1), "-1");
    assert_eq!(fmt_i32(i32::MAX), "2147483647");
    assert_eq!(fmt_i32(i32::MIN), "-2147483648");
    assert_eq!(fmt_i64(i64::MAX), "9223372036854775807");
    assert_eq!(fmt_i64(i64::MIN), "-9223372036854775808");
}

#[test]
fn test_subscribe_cmd_with_single_ticker() {
    let cmd = build_subscribe_cmd(
        7,
        &vec![Channel::Ticker],
        &Some("X".to_string()),
        &None,
    );
    assert_eq!(
        cmd,
        r#"{"id":7,"cmd":"subscribe","params":{"channels":["ticker"],"market_ticker":"X"}}"#
    );
}

#[test]
fn test_subscribe_cmd_with_ticker_list() {
    let cmd = build_subscribe_cmd(
        1,
        &vec![Channel::OrderbookDelta, Channel::Trade],
        &None,
        &Some(vec!["A".to_string(), "B".to_string()]),
    );
    assert_eq!(
        cmd,
        r#"{"id":1,"cmd":"subscribe","params":{"channels":["orderbook_delta","trade"],"market_tickers":["A","B"]}}"#
    );
}

#[test]
fn test_subscribe_cmd_without_tickers() {
    let cmd = build_subscribe_cmd(3, &vec![Channel::Fill], &None, &None);
    assert_eq!(
        cmd,
        r#"{"id":3,"cmd":"subscribe","params":{"channels":["fill"]}}"#
    );
}

#[test]
fn test_unsubscribe_cmd() {
    let cmd = build_unsubscribe_cmd(9, &vec![42, -1, 7]);
    assert_eq!(
        cmd,
        r#"{"id":9,"cmd":"unsubscribe","params":{"sids":[42,-1,7]}}"#
    );
}

#[test]
fn test_update_cmd_add_and_delete() {
    let cmd = build_update_cmd(5, &vec![42], &vec!["M".to_string()], true);
    assert_eq!(
        cmd,
        r#"{"id":5,"cmd":"update_subscription","params":{"sids":[42],"market_tickers":["M"],"action":"add_markets"}}"#
    );
    let cmd = build_update_cmd(6, &vec![42], &vec!["M".to_string()], false);
    assert_eq!(
        cmd,
        r#"{"id":6,"cmd":"update_subscription","params":{"sids":[42],"market_tickers":["M"],"action":"delete_markets"}}"#
    );
}

#[test]
fn test_ticker_escaping_in_cmd() {
    let tricky = "A\"B\\C\nD".to_string();
    let cmd = build_subscribe_cmd(1, &vec![Channel::Ticker], &Some(tricky), &None);
    assert_eq!(
        cmd,
        "{\"id\":1,\"cmd\":\"subscribe\",\"params\":{\"channels\":[\"ticker\"],\"market_ticker\":\"A\\\"B\\\\C\\nD\"}}"
    );
    // The escaped frame is itself valid JSON holding the original text.
    let parsed: serde_json::Value = serde_json::from_str(&cmd).unwrap();
    assert_eq!(parsed["params"]["market_ticker"], "A\"B\\C\nD");
}

#[test]
fn test_control_char_escaping_round_trips_through_json() {
    let tricky = "a\u{1}b\t".to_string();
    let cmd = build_subscribe_cmd(2, &vec![Channel::Trade], &Some(tricky.clone()), &None);
    let parsed: serde_json::Value = serde_json::from_str(&cmd).unwrap();
    assert_eq!(parsed["params"]["market_ticker"], tricky.as_str());
}
