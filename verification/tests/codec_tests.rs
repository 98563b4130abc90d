use kalshi::messages::{DecodeError, WebSocketMessage};
use kalshi::json::JsonVal;
use kalshi::{Action, MarketLifecycleEvent, Side};

#[test]
fn test_parse_subscribed_frame() {
    let msg = WebSocketMessage::parse(
        r#"{"type":"subscribed","id":1,"msg":{"channel":"ticker","sid":42}}"#,
    )
    .unwrap();
    match msg {
        WebSocketMessage::Subscribed(m) => {
            assert_eq!(m.channel, "ticker");
            assert_eq!(m.sid, 42);
        }
        other => panic!("wrong variant: {:?}", other),
    }
}

#[test]
fn test_parse_ok_frame_uses_envelope_fields() {
    let msg = WebSocketMessage::parse(r#"{"type":"ok","sid":7,"seq":12}"#).unwrap();
    match msg {
        WebSocketMessage::Ack(m) => {
            assert_eq!(m.sid, 7);
            assert_eq!(m.seq, 12);
        }
        other => panic!("wrong variant: {:?}", other),
    }
}

#[test]
fn test_parse_ok_frame_defaults_missing_fields_to_zero() {
    let msg = WebSocketMessage::parse(r#"{"type":"ok"}"#).unwrap();
    match msg {
        WebSocketMessage::Ack(m) => {
            assert_eq!(m.sid, 0);
            assert_eq!(m.seq, 0);
        }
        other => panic!("wrong variant: {:?}", other),
    }
}

#[test]
fn test_parse_error_frame() {
    let msg = WebSocketMessage::parse(
        r#"{"type":"error","msg":{"code":6,"msg":"Already subscribed"}}"#,
    )
    .unwrap();
    match msg {
        WebSocketMessage::Error(m) => {
            assert_eq!(m.code, 6);
            assert_eq!(m.msg, "Already subscribed");
        }
        other => panic!("wrong variant: {:?}", other),
    }
}

#[test]
fn test_parse_ticker_frame_with_optional_fields() {
    let msg = WebSocketMessage::parse(
        r#"{"type":"ticker","sid":3,"msg":{"market_ticker":"HIGHNY","price":55,"volume":1000}}"#,
    )
    .unwrap();
    match msg {
        WebSocketMessage::Ticker(m) => {
            assert_eq!(m.market_ticker, "HIGHNY");
            assert_eq!(m.price, Some(55));
            assert_eq!(m.yes_bid, None);
            assert_eq!(m.yes_ask, None);
            assert_eq!(m.price_dollars, None);
            assert_eq!(m.volume, Some(1000));
            assert_eq!(m.open_interest, None);
            assert_eq!(m.ts, None);
        }
        other => panic!("wrong variant: {:?}", other),
    }
}

#[test]
fn test_parse_trade_frame() {
    let msg = WebSocketMessage::parse(
        r#"{"type":"trade","msg":{"market_ticker":"X","yes_price":40,"no_price":60,"count":5,"taker_side":"yes","ts":1700000000}}"#,
    )
    .unwrap();
    match msg {
        WebSocketMessage::Trade(m) => {
            assert_eq!(m.market_ticker, "X");
            assert_eq!(m.yes_price, 40);
            assert_eq!(m.no_price, 60);
            assert_eq!(m.count, 5);
            assert_eq!(m.taker_side, "yes");
            assert_eq!(m.ts, 1700000000);
        }
        other => panic!("wrong variant: {:?}", other),
    }
}

#[test]
fn test_parse_fill_frame() {
    let msg = WebSocketMessage::parse(
        r#"{"type":"fill","msg":{"trade_id":"t1","order_id":"o1","market_ticker":"M","side":"no","action":"sell","count":2,"post_position":-3}}"#,
    )
    .unwrap();
    match msg {
        WebSocketMessage::Fill(m) => {
            assert_eq!(m.trade_id, "t1");
            assert_eq!(m.order_id, "o1");
            assert_eq!(m.market_ticker, "M");
            assert_eq!(m.side, Side::No);
            assert_eq!(m.action, Action::Sell);
            assert_eq!(m.count, 2);
            assert_eq!(m.post_position, -3);
        }
        other => panic!("wrong variant: {:?}", other),
    }
}

#[test]
fn test_parse_orderbook_snapshot_frame() {
    let msg = WebSocketMessage::parse(
        r#"{"type":"orderbook_snapshot","sid":2,"seq":9,"msg":{"market_ticker":"M","yes":[[30,100],[31,50]],"yes_dollars":[["0.30","100"]],"no":[[70,10]],"no_dollars":[]}}"#,
    )
    .unwrap();
    match msg {
        WebSocketMessage::OrderbookSnapshot(m) => {
            assert_eq!(m.market_ticker, "M");
            assert_eq!(m.yes, vec![vec![30, 100], vec![31, 50]]);
            assert_eq!(
                m.yes_dollars,
                vec![vec!["0.30".to_string(), "100".to_string()]]
            );
            assert_eq!(m.no, vec![vec![70, 10]]);
            assert!(m.no_dollars.is_empty());
        }
        other => panic!("wrong variant: {:?}", other),
    }
}

#[test]
fn test_parse_orderbook_delta_frame() {
    let msg = WebSocketMessage::parse(
        r#"{"type":"orderbook_delta","msg":{"market_ticker":"M","price":31,"price_dollars":"0.31","delta":-5,"side":"no"}}"#,
    )
    .unwrap();
    match msg {
        WebSocketMessage::OrderbookDelta(m) => {
            assert_eq!(m.market_ticker, "M");
            assert_eq!(m.price, 31);
            assert_eq!(m.price_dollars, "0.31");
            assert_eq!(m.delta, -5);
            assert_eq!(m.side, "no");
        }
        other => panic!("wrong variant: {:?}", other),
    }
}

#[test]
fn test_parse_market_lifecycle_frame() {
    let msg = WebSocketMessage::parse(
        r#"{"type":"market_lifecycle_v2","msg":{"market_ticker":"M","event_type":"activated","open_ts":5}}"#,
    )
    .unwrap();
    match msg {
        WebSocketMessage::MarketLifecycle(m) => {
            assert_eq!(m.market_ticker, "M");
            assert_eq!(m.event_type, MarketLifecycleEvent::Activated);
            assert_eq!(m.open_ts, Some(5));
            assert_eq!(m.close_ts, None);
        }
        other => panic!("wrong variant: {:?}", other),
    }
}

#[test]
fn test_parse_multivariate_frame() {
    let msg = WebSocketMessage::parse(
        r#"{"type":"multivariate_lookup","msg":{"collection_ticker":"C","market_ticker":"M","selected_markets":[{"market_ticker":"A","side":"yes"},{"market_ticker":"B","side":"no"}]}}"#,
    )
    .unwrap();
    match msg {
        WebSocketMessage::MultivariateLookup(m) => {
            assert_eq!(m.collection_ticker, "C");
            assert_eq!(m.market_ticker, "M");
            assert_eq!(m.selected_markets.len(), 2);
            assert_eq!(m.selected_markets[0].market_ticker, "A");
            assert_eq!(m.selected_markets[0].side, "yes");
            assert_eq!(m.selected_markets[1].market_ticker, "B");
            assert_eq!(m.selected_markets[1].side, "no");
        }
        other => panic!("wrong variant: {:?}", other),
    }
}

#[test]
fn test_parse_communications_frames() {
    let msg = WebSocketMessage::parse(
        r#"{"type":"rfq_created","msg":{"id":"r1","market_ticker":"M","contracts":10}}"#,
    )
    .unwrap();
    assert!(matches!(msg, WebSocketMessage::RfqCreated(_)));

    let msg = WebSocketMessage::parse(
        r#"{"type":"quote_created","msg":{"quote_id":"q1","rfq_id":"r1","yes_bid":40,"no_bid":60}}"#,
    )
    .unwrap();
    assert!(matches!(msg, WebSocketMessage::QuoteCreated(_)));

    let msg = WebSocketMessage::parse(
        r#"{"type":"quote_accepted","msg":{"quote_id":"q1","accepted_side":"yes"}}"#,
    )
    .unwrap();
    assert!(matches!(msg, WebSocketMessage::QuoteAccepted(_)));
}

#[test]
fn test_parse_market_position_and_event_lifecycle() {
    let msg = WebSocketMessage::parse(
        r#"{"type":"market_position","msg":{"market_ticker":"M","position":4,"position_cost":10000,"realized_pnl":-500,"fees_paid":70}}"#,
    )
    .unwrap();
    match msg {
        WebSocketMessage::MarketPosition(m) => {
            assert_eq!(m.position, 4);
            assert_eq!(m.position_cost, 10000);
            assert_eq!(m.realized_pnl, -500);
            assert_eq!(m.fees_paid, 70);
        }
        other => panic!("wrong variant: {:?}", other),
    }

    let msg = WebSocketMessage::parse(
        r#"{"type":"event_lifecycle","msg":{"event_ticker":"E","title":"An event"}}"#,
    )
    .unwrap();
    match msg {
        WebSocketMessage::EventLifecycle(m) => {
            assert_eq!(m.event_ticker, "E");
            assert_eq!(m.title, "An event");
        }
        other => panic!("wrong variant: {:?}", other),
    }
}

#[test]
fn test_unknown_type_decodes_to_unknown() {
    let msg =
        WebSocketMessage::parse(r#"{"type":"heartbeat","sid":1,"msg":{"beat":true}}"#).unwrap();
    match msg {
        WebSocketMessage::Unknown(raw) => {
            // The raw envelope is kept whole.
            match raw {
                JsonVal::Obj(fields) => {
                    assert!(fields.iter().any(|(k, v)| {
                        k == "type" && *v == JsonVal::Str("heartbeat".to_string())
                    }));
                }
                other => panic!("expected the raw envelope object, got {:?}", other),
            }
        }
        other => panic!("wrong variant: {:?}", other),
    }
}

#[test]
fn test_known_type_with_bad_payload_is_payload_error() {
    // "subscribed" without a sid in its payload does not degrade to Unknown.
    let r = WebSocketMessage::parse(r#"{"type":"subscribed","msg":{"channel":"ticker"}}"#);
    assert_eq!(r.unwrap_err(), DecodeError::Payload);

    // A payload of the wrong type entirely.
    let r = WebSocketMessage::parse(r#"{"type":"error","msg":"nope"}"#);
    assert_eq!(r.unwrap_err(), DecodeError::Payload);

    // A missing payload for a type that needs one.
    let r = WebSocketMessage::parse(r#"{"type":"trade"}"#);
    assert_eq!(r.unwrap_err(), DecodeError::Payload);
}

#[test]
fn test_bad_envelope_is_envelope_error() {
    // Not JSON at all.
    assert_eq!(
        WebSocketMessage::parse("not json").unwrap_err(),
        DecodeError::Envelope
    );
    // Not an object.
    assert_eq!(
        WebSocketMessage::parse("[1,2,3]").unwrap_err(),
        DecodeError::Envelope
    );
    // No type field.
    assert_eq!(
        WebSocketMessage::parse(r#"{"sid":1}"#).unwrap_err(),
        DecodeError::Envelope
    );
    // type of the wrong kind.
    assert_eq!(
        WebSocketMessage::parse(r#"{"type":7}"#).unwrap_err(),
        DecodeError::Envelope
    );
    // sid of the wrong kind poisons the envelope even for unknown types.
    assert_eq!(
        WebSocketMessage::parse(r#"{"type":"whatever","sid":"nope"}"#).unwrap_err(),
        DecodeError::Envelope
    );
    // sid out of 32-bit range.
    assert_eq!(
        WebSocketMessage::parse(r#"{"type":"ok","sid":5000000000}"#).unwrap_err(),
        DecodeError::Envelope
    );
}

#[test]
fn test_null_and_missing_envelope_fields_are_absent() {
    let msg = WebSocketMessage::parse(r#"{"type":"ok","sid":null,"seq":null}"#).unwrap();
    match msg {
        WebSocketMessage::Ack(m) => {
            assert_eq!(m.sid, 0);
            assert_eq!(m.seq, 0);
        }
        other => panic!("wrong variant: {:?}", other),
    }
}
