use kalshi::Channel;
use kalshi::Registry;

fn tickers(reg: &Registry, sid: i32) -> Vec<String> {
    reg.get(sid).unwrap().market_tickers.clone()
}

#[test]
fn test_insert_get_remove() {
    let mut reg = Registry::new();
    reg.insert(1, Channel::Ticker, vec!["A".to_string()]);
    reg.insert(2, Channel::Trade, vec![]);

    let sub = reg.get(1).unwrap();
    assert_eq!(sub.sid, 1);
    assert_eq!(sub.channel, Channel::Ticker);
    assert_eq!(sub.market_tickers, vec!["A".to_string()]);
    assert!(reg.get(3).is_none());

    reg.remove(1);
    assert!(reg.get(1).is_none());
    assert!(reg.get(2).is_some());

    // Removing an absent sid is a no-op.
    reg.remove(99);
    assert!(reg.get(2).is_some());
}

#[test]
fn test_insert_overwrites_in_place() {
    let mut reg = Registry::new();
    reg.insert(1, Channel::Ticker, vec!["A".to_string()]);
    reg.insert(2, Channel::Trade, vec![]);
    reg.insert(1, Channel::Fill, vec!["B".to_string()]);

    let snap = reg.snapshot();
    assert_eq!(snap.len(), 2);
    assert_eq!(snap[0].sid, 1);
    assert_eq!(snap[0].channel, Channel::Fill);
    assert_eq!(snap[0].market_tickers, vec!["B".to_string()]);
    assert_eq!(snap[1].sid, 2);
}

#[test]
fn test_add_tickers_skips_present_ones() {
    let mut reg = Registry::new();
    reg.insert(1, Channel::Ticker, vec!["A".to_string()]);
    reg.add_tickers(1, &vec!["A".to_string(), "B".to_string(), "B".to_string()]);
    assert_eq!(tickers(&reg, 1), vec!["A".to_string(), "B".to_string()]);

    // A missing sid is a no-op, not an error.
    reg.add_tickers(9, &vec!["C".to_string()]);
    assert!(reg.get(9).is_none());
}

#[test]
fn test_remove_tickers_skips_absent_ones() {
    let mut reg = Registry::new();
    reg.insert(1, Channel::Ticker, vec!["A".to_string(), "B".to_string()]);
    reg.remove_tickers(1, &vec!["B".to_string(), "Z".to_string()]);
    assert_eq!(tickers(&reg, 1), vec!["A".to_string()]);

    reg.remove_tickers(9, &vec!["A".to_string()]);
    assert_eq!(tickers(&reg, 1), vec!["A".to_string()]);
}

#[test]
fn test_add_then_remove_restores_ticker_set() {
    // Round-trip idempotence for a ticker that was not present.
    let mut reg = Registry::new();
    reg.insert(1, Channel::Ticker, vec!["A".to_string(), "B".to_string()]);
    reg.add_tickers(1, &vec!["X".to_string()]);
    assert_eq!(
        tickers(&reg, 1),
        vec!["A".to_string(), "B".to_string(), "X".to_string()]
    );
    reg.remove_tickers(1, &vec!["X".to_string()]);
    assert_eq!(tickers(&reg, 1), vec!["A".to_string(), "B".to_string()]);
}

#[test]
fn test_clear_drops_everything() {
    let mut reg = Registry::new();
    reg.insert(1, Channel::Ticker, vec![]);
    reg.insert(2, Channel::Trade, vec![]);
    reg.clear();
    assert!(reg.snapshot().is_empty());
    assert!(reg.get(1).is_none());
}
