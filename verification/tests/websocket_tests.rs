use kalshi::{
    Channel, CommandResponse, KalshiError, KalshiWebSocket, StreamStep, TradingEnvironment,
    WaitStep, WebSocketMessage, WsEvent,
};

fn test_engine() -> KalshiWebSocket {
    let rsa = openssl::rsa::Rsa::generate(2048).unwrap();
    let key = openssl::pkey::PKey::from_rsa(rsa).unwrap();
    KalshiWebSocket::new(TradingEnvironment::DemoMode, "test-key", key)
}

fn connected_engine() -> KalshiWebSocket {
    let mut ws = test_engine();
    ws.connection_opened();
    ws
}

/// Runs a subscribe for one channel through the whole flow and returns the
/// sid the fake server assigned.
fn subscribe_one(ws: &mut KalshiWebSocket, channel: Channel, sid: i32, ticker: &str) {
    let (wait, _frame) = ws
        .subscribe_request(&vec![channel], &Some(ticker.to_string()), &None)
        .unwrap()
        .unwrap();
    let frame = format!(
        r#"{{"type":"subscribed","msg":{{"sid":{},"channel":"{}"}}}}"#,
        sid,
        channel.wire_name()
    );
    match ws.wait_step(&wait, WsEvent::Frame(frame)) {
        WaitStep::Ready => {}
        other => panic!("expected Ready, got {:?}", other),
    }
    let responses = ws.collect_responses(&wait);
    let tickers = vec![ticker.to_string()];
    ws.subscribe_finish(responses, &tickers).unwrap();
}

#[test]
fn websocket_tests_test_channel_requires_auth() {
    // Public channels
    assert!(!Channel::OrderbookDelta.requires_auth());
    assert!(!Channel::Ticker.requires_auth());
    assert!(!Channel::Trade.requires_auth());
    assert!(!Channel::MarketLifecycleV2.requires_auth());
    assert!(!Channel::EventLifecycle.requires_auth());
    assert!(!Channel::Multivariate.requires_auth());

    // Private channels
    assert!(Channel::Fill.requires_auth());
    assert!(Channel::MarketPosition.requires_auth());
    assert!(Channel::Communications.requires_auth());
}

#[test]
fn websocket_tests_test_channel_display() {
    assert_eq!(Channel::OrderbookDelta.wire_name(), "orderbook_delta");
    assert_eq!(Channel::Ticker.wire_name(), "ticker");
    assert_eq!(Channel::Trade.wire_name(), "trade");
    assert_eq!(Channel::Fill.wire_name(), "fill");
    assert_eq!(Channel::MarketPosition.wire_name(), "market_position");
    assert_eq!(Channel::MarketLifecycleV2.wire_name(), "market_lifecycle_v2");
    assert_eq!(Channel::EventLifecycle.wire_name(), "event_lifecycle");
    assert_eq!(Channel::Multivariate.wire_name(), "multivariate");
    assert_eq!(Channel::Communications.wire_name(), "communications");
}

#[test]
fn test_connection_lifecycle() {
    let mut ws = test_engine();
    assert!(!ws.is_connected(), "Should not be connected initially");

    let url = ws.connect_url().unwrap();
    assert!(url.starts_with("wss://demo-api.kalshi.co/trade-api/ws/v2?api-key=test-key&timestamp="));
    assert!(url.contains("&signature="));

    ws.connection_opened();
    assert!(ws.is_connected(), "Should be connected after the handshake");

    ws.disconnect();
    assert!(!ws.is_connected(), "Should not be connected after disconnect()");
}

#[test]
fn test_subscribe_while_disconnected_fails() {
    let mut ws = test_engine();
    let r = ws.subscribe_request(&vec![Channel::Ticker], &None, &None);
    assert!(matches!(r, Err(KalshiError::Transport(_))));
}

#[test]
fn test_subscribe_empty_channel_list_is_a_no_op() {
    let mut ws = connected_engine();
    let r = ws.subscribe_request(&vec![], &None, &None).unwrap();
    assert!(r.is_none());
}

#[test]
fn test_subscribe_confirmation_fills_registry() {
    // Send subscribe(channels=[Ticker], market_ticker="X") with id 7; the
    // server replies with sid 42; the registry must then hold exactly
    // {sid: 42, channel: Ticker, market_tickers: ["X"]}, and the waiter
    // must resolve to that confirmation.
    let mut ws = connected_engine();

    // Burn ids 1..=6 on commands that time out, so the subscribe gets 7.
    for _ in 0..6 {
        let (wait, _frame) = ws.unsubscribe_request(&vec![1]).unwrap().unwrap();
        match ws.wait_step(&wait, WsEvent::DeadlineExpired) {
            WaitStep::Failed(KalshiError::Timeout) => {}
            other => panic!("expected a timeout, got {:?}", other),
        }
    }

    let (wait, frame) = ws
        .subscribe_request(&vec![Channel::Ticker], &Some("X".to_string()), &None)
        .unwrap()
        .unwrap();
    assert_eq!(
        frame,
        r#"{"id":7,"cmd":"subscribe","params":{"channels":["ticker"],"market_ticker":"X"}}"#
    );
    assert_eq!(wait.ids, vec![7]);

    let reply = r#"{"type":"subscribed","msg":{"sid":42,"channel":"ticker"}}"#.to_string();
    match ws.wait_step(&wait, WsEvent::Frame(reply)) {
        WaitStep::Ready => {}
        other => panic!("expected Ready, got {:?}", other),
    }
    let responses = ws.collect_responses(&wait);
    assert_eq!(responses.len(), 1);
    assert_eq!(responses[0].0, 7);
    match &responses[0].1 {
        CommandResponse::Subscribed { sid, channel } => {
            assert_eq!(*sid, 42);
            assert_eq!(channel, "ticker");
        }
        other => panic!("expected a confirmation, got {:?}", other),
    }

    let results = ws
        .subscribe_finish(responses, &vec!["X".to_string()])
        .unwrap();
    assert_eq!(results.len(), 1);
    assert_eq!(results[0].sid, 42);
    assert_eq!(results[0].channel, "ticker");

    let sub = ws.get_subscription(42).expect("sid 42 must be tracked");
    assert_eq!(sub.sid, 42);
    assert_eq!(sub.channel, Channel::Ticker);
    assert_eq!(sub.market_tickers, vec!["X".to_string()]);
}

#[test]
fn test_multi_channel_subscribe_maps_confirmations_by_id_offset() {
    // Three channels get three consecutive ids; however the confirmations
    // arrive, confirmation k answers channel k.
    let mut ws = connected_engine();
    let channels = vec![Channel::OrderbookDelta, Channel::Ticker, Channel::Trade];
    let (wait, _frame) = ws
        .subscribe_request(&channels, &None, &None)
        .unwrap()
        .unwrap();
    assert_eq!(wait.ids, vec![1, 2, 3]);

    // The server confirms one channel per frame; sids arrive in an
    // arbitrary order.
    for (sid, name) in [(30, "orderbook_delta"), (10, "ticker"), (20, "trade")] {
        let frame = format!(
            r#"{{"type":"subscribed","msg":{{"sid":{},"channel":"{}"}}}}"#,
            sid, name
        );
        ws.wait_step(&wait, WsEvent::Frame(frame));
    }
    assert!(matches!(
        ws.wait_step(&wait, WsEvent::Silence),
        WaitStep::Ready
    ));

    let responses = ws.collect_responses(&wait);
    assert_eq!(responses.len(), 3);
    // Exactly one confirmation per issued id, in arrival order: the k-th
    // arriving confirmation resolves the k-th oldest pending id, which is
    // the k-th channel.
    for (k, (id, _resp)) in responses.iter().enumerate() {
        assert_eq!(*id, wait.ids[k]);
    }

    let results = ws.subscribe_finish(responses, &vec![]).unwrap();
    assert_eq!(results.len(), 3);
    assert_eq!(results[0].channel, "orderbook_delta");
    assert_eq!(results[1].channel, "ticker");
    assert_eq!(results[2].channel, "trade");
}

#[test]
fn test_subscribe_rejection_is_reported() {
    let mut ws = connected_engine();
    let (wait, _frame) = ws
        .subscribe_request(&vec![Channel::Ticker], &None, &None)
        .unwrap()
        .unwrap();
    let reply = r#"{"type":"error","msg":{"code":6,"msg":"Already subscribed"}}"#.to_string();
    assert!(matches!(
        ws.wait_step(&wait, WsEvent::Frame(reply)),
        WaitStep::Ready
    ));
    let responses = ws.collect_responses(&wait);
    let err = ws.subscribe_finish(responses, &vec![]).unwrap_err();
    assert_eq!(
        err,
        KalshiError::Rejected { code: 6, msg: "Already subscribed".to_string() }
    );
}

#[test]
fn test_wait_timeout_removes_the_waiter() {
    // Await a single command and let the deadline expire with no reply:
    // the wait fails with a timeout (never a server rejection), and the
    // pending command is gone, so the late reply is dropped silently.
    let mut ws = connected_engine();
    let (wait, _frame) = ws
        .subscribe_request(&vec![Channel::Ticker], &None, &None)
        .unwrap()
        .unwrap();

    assert!(matches!(
        ws.wait_step(&wait, WsEvent::Silence),
        WaitStep::Waiting
    ));
    match ws.wait_step(&wait, WsEvent::DeadlineExpired) {
        WaitStep::Failed(KalshiError::Timeout) => {}
        other => panic!("expected a timeout, got {:?}", other),
    }

    // The late confirmation must not resolve anything, and must not crash
    // the reader loop; it still reaches the stream consumer.
    let late = r#"{"type":"subscribed","msg":{"sid":42,"channel":"ticker"}}"#.to_string();
    match ws.stream_step(WsEvent::Frame(late)) {
        StreamStep::Item(WebSocketMessage::Subscribed(_)) => {}
        other => panic!("expected the late frame in the stream, got {:?}", other),
    }
    assert!(ws.collect_responses(&wait).is_empty());
}

#[test]
fn test_unsubscribe_removes_registry_entry() {
    // unsubscribe([42]) confirmed by an ok: the registry no longer holds
    // sid 42.
    let mut ws = connected_engine();
    subscribe_one(&mut ws, Channel::Ticker, 42, "X");
    assert!(ws.get_subscription(42).is_some());

    let (wait, frame) = ws.unsubscribe_request(&vec![42]).unwrap().unwrap();
    let cmd_id = wait.ids[0];
    assert_eq!(
        frame,
        format!(r#"{{"id":{},"cmd":"unsubscribe","params":{{"sids":[42]}}}}"#, cmd_id)
    );

    let reply = format!(r#"{{"type":"ok","sid":{},"seq":1}}"#, cmd_id);
    assert!(matches!(
        ws.wait_step(&wait, WsEvent::Frame(reply)),
        WaitStep::Ready
    ));
    let mut responses = ws.collect_responses(&wait);
    assert_eq!(responses.len(), 1);
    let (_id, response) = responses.remove(0);
    ws.unsubscribe_finish(&vec![42], response).unwrap();

    assert!(ws.get_subscription(42).is_none());
    assert!(ws.list_subscriptions().is_empty());
}

#[test]
fn test_update_subscription_add_then_delete() {
    let mut ws = connected_engine();
    subscribe_one(&mut ws, Channel::Ticker, 42, "A");

    // Add a ticker.
    let (wait, _frame) = ws
        .update_subscription_request(
            &vec![42],
            &vec!["B".to_string()],
            kalshi::UpdateAction::AddMarkets,
        )
        .unwrap()
        .unwrap();
    let reply = format!(r#"{{"type":"ok","sid":{},"seq":2}}"#, wait.ids[0]);
    assert!(matches!(
        ws.wait_step(&wait, WsEvent::Frame(reply)),
        WaitStep::Ready
    ));
    let mut responses = ws.collect_responses(&wait);
    let (_id, response) = responses.remove(0);
    ws.update_subscription_finish(
        &vec![42],
        &vec!["B".to_string()],
        kalshi::UpdateAction::AddMarkets,
        response,
    )
    .unwrap();
    assert_eq!(
        ws.get_subscription(42).unwrap().market_tickers,
        vec!["A".to_string(), "B".to_string()]
    );

    // Delete it again: the original ticker set is restored.
    let (wait, _frame) = ws
        .update_subscription_request(
            &vec![42],
            &vec!["B".to_string()],
            kalshi::UpdateAction::DeleteMarkets,
        )
        .unwrap()
        .unwrap();
    let reply = format!(r#"{{"type":"ok","sid":{},"seq":3}}"#, wait.ids[0]);
    assert!(matches!(
        ws.wait_step(&wait, WsEvent::Frame(reply)),
        WaitStep::Ready
    ));
    let mut responses = ws.collect_responses(&wait);
    let (_id, response) = responses.remove(0);
    ws.update_subscription_finish(
        &vec![42],
        &vec!["B".to_string()],
        kalshi::UpdateAction::DeleteMarkets,
        response,
    )
    .unwrap();
    assert_eq!(
        ws.get_subscription(42).unwrap().market_tickers,
        vec!["A".to_string()]
    );
}

#[test]
fn test_disconnect_clears_subscriptions() {
    // disconnect() followed by list_subscriptions() returns an empty
    // collection.
    let mut ws = connected_engine();
    subscribe_one(&mut ws, Channel::Ticker, 42, "X");
    subscribe_one(&mut ws, Channel::Trade, 43, "Y");
    assert_eq!(ws.list_subscriptions().len(), 2);

    ws.disconnect();
    assert!(ws.list_subscriptions().is_empty());
    assert!(!ws.is_connected());
}

#[test]
fn test_stream_yields_data_and_control_frames() {
    // Two frames back to back, a ticker then an error: the ticker appears
    // in the stream; the error both appears in the stream and resolves the
    // pending waiter.
    let mut ws = connected_engine();
    let (wait, _frame) = ws
        .subscribe_request(&vec![Channel::Ticker], &None, &None)
        .unwrap()
        .unwrap();

    let ticker = r#"{"type":"ticker","sid":9,"msg":{"market_ticker":"M","price":55}}"#;
    match ws.stream_step(WsEvent::Frame(ticker.to_string())) {
        StreamStep::Item(WebSocketMessage::Ticker(m)) => {
            assert_eq!(m.market_ticker, "M");
            assert_eq!(m.price, Some(55));
        }
        other => panic!("expected the ticker in the stream, got {:?}", other),
    }

    let error = r#"{"type":"error","msg":{"code":8,"msg":"boom"}}"#;
    match ws.stream_step(WsEvent::Frame(error.to_string())) {
        StreamStep::Item(WebSocketMessage::Error(m)) => {
            assert_eq!(m.code, 8);
            assert_eq!(m.msg, "boom");
        }
        other => panic!("expected the error in the stream, got {:?}", other),
    }

    // The error resolved the pending subscribe command.
    let responses = ws.collect_responses(&wait);
    assert_eq!(responses.len(), 1);
    assert!(matches!(
        responses[0].1,
        CommandResponse::Error { code: 8, .. }
    ));
}

#[test]
fn test_stream_survives_bad_and_unknown_frames() {
    // An unrecognized type decodes to Unknown and is yielded; a recognized
    // type with an invalid payload is dropped without ending the stream;
    // only the transport's end ends it.
    let mut ws = connected_engine();

    let unknown = r#"{"type":"heartbeat","msg":{}}"#;
    assert!(matches!(
        ws.stream_step(WsEvent::Frame(unknown.to_string())),
        StreamStep::Item(WebSocketMessage::Unknown(_))
    ));

    let bad_payload = r#"{"type":"trade","msg":{"market_ticker":"M"}}"#;
    assert!(matches!(
        ws.stream_step(WsEvent::Frame(bad_payload.to_string())),
        StreamStep::Pending
    ));

    let not_json = "garbage";
    assert!(matches!(
        ws.stream_step(WsEvent::Frame(not_json.to_string())),
        StreamStep::Pending
    ));

    // The stream still works afterwards.
    let ticker = r#"{"type":"ticker","msg":{"market_ticker":"M"}}"#;
    assert!(matches!(
        ws.stream_step(WsEvent::Frame(ticker.to_string())),
        StreamStep::Item(WebSocketMessage::Ticker(_))
    ));

    assert!(matches!(ws.stream_step(WsEvent::Closed), StreamStep::End));
}

#[test]
fn test_wait_fails_when_the_connection_closes() {
    let mut ws = connected_engine();
    let (wait, _frame) = ws
        .subscribe_request(&vec![Channel::Ticker], &None, &None)
        .unwrap()
        .unwrap();
    match ws.wait_step(&wait, WsEvent::Closed) {
        WaitStep::Failed(KalshiError::Transport(_)) => {}
        other => panic!("expected a transport failure, got {:?}", other),
    }
}

#[test]
fn test_wait_after_disconnect_fails_terminally() {
    // An outstanding waiter must observe a terminal error after a
    // disconnect, never hang forever.
    let mut ws = connected_engine();
    let (wait, _frame) = ws
        .subscribe_request(&vec![Channel::Ticker], &None, &None)
        .unwrap()
        .unwrap();
    ws.disconnect();
    match ws.wait_step(&wait, WsEvent::Silence) {
        WaitStep::Failed(KalshiError::Transport(_)) => {}
        other => panic!("expected a transport failure, got {:?}", other),
    }
}

#[test]
fn test_stream_after_disconnect_ends() {
    let mut ws = connected_engine();
    ws.disconnect();
    let frame = r#"{"type":"ticker","msg":{"market_ticker":"M"}}"#;
    assert!(matches!(
        ws.stream_step(WsEvent::Frame(frame.to_string())),
        StreamStep::End
    ));
}
