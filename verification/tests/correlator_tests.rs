use kalshi::{CommandResponse, Correlator};

#[test]
fn test_ids_count_up_from_one() {
    let mut c = Correlator::new();
    assert_eq!(c.get_next_id(), 1);
    assert_eq!(c.get_next_id(), 2);
    assert_eq!(c.get_next_id(), 3);
}

#[test]
fn test_route_delivers_at_most_once() {
    let mut c = Correlator::new();
    let id = c.get_next_id();
    c.register(id);

    // The first route resolves the waiter...
    assert!(c.route(id, CommandResponse::Ack { id }));
    // ...and consumes the slot: a second route for the same id finds no
    // waiter and is dropped.
    assert!(!c.route(id, CommandResponse::Ack { id }));

    let taken = c.take_matching(&vec![id]);
    assert_eq!(taken.len(), 1);
    assert_eq!(taken[0].0, id);
}

#[test]
fn test_route_unknown_id_is_dropped() {
    let mut c = Correlator::new();
    assert!(!c.route(5, CommandResponse::Ack { id: 5 }));
    assert!(c.take_matching(&vec![5]).is_empty());
}

#[test]
fn test_cancel_removes_the_waiter() {
    let mut c = Correlator::new();
    let id = c.get_next_id();
    c.register(id);
    c.cancel(id);
    // The late response finds no waiter.
    assert!(!c.route(id, CommandResponse::Ack { id }));
}

#[test]
fn test_take_matching_keeps_arrival_order_and_others() {
    let mut c = Correlator::new();
    let a = c.get_next_id();
    c.register(a);
    let b = c.get_next_id();
    c.register(b);
    let other = c.get_next_id();
    c.register(other);

    assert!(c.route(b, CommandResponse::Ack { id: b }));
    assert!(c.route(other, CommandResponse::Ack { id: other }));
    assert!(c.route(a, CommandResponse::Ack { id: a }));

    let taken = c.take_matching(&vec![a, b]);
    // Arrival order, not request order.
    assert_eq!(taken.len(), 2);
    assert_eq!(taken[0].0, b);
    assert_eq!(taken[1].0, a);

    // The unrelated response stays queued.
    let rest = c.take_matching(&vec![other]);
    assert_eq!(rest.len(), 1);
    assert_eq!(rest[0].0, other);
}

#[test]
fn test_clear_drops_pending_and_delivered() {
    let mut c = Correlator::new();
    let a = c.get_next_id();
    c.register(a);
    let b = c.get_next_id();
    c.register(b);
    assert!(c.route(a, CommandResponse::Ack { id: a }));
    c.clear();
    assert!(c.take_matching(&vec![a, b]).is_empty());
    assert!(!c.route(b, CommandResponse::Ack { id: b }));
}
