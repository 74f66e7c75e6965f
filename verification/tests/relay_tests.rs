//! SEND path recording and REPORT path reversal.

use rings_node::did::Did;
use rings_node::error::Error;
use rings_node::relay::MessageRelay;
use rings_node::relay::RelayMethod;

fn d(x: u128) -> Did {
    Did::new(0, x)
}

#[test]
fn new_send_records_the_author() {
    let r = MessageRelay::new_send(d(1), d(2), d(9));
    assert_eq!(r.method, RelayMethod::SEND);
    assert_eq!(r.path, vec![d(1)]);
    assert_eq!(r.path_end_cursor, 0);
    assert_eq!(r.next_hop, Some(d(2)));
    assert_eq!(r.destination, d(9));
}

#[test]
fn send_relay_appends_each_hop() {
    let mut r = MessageRelay::new_send(d(1), d(2), d(9));
    r.relay(d(2), Some(d(3))).unwrap();
    assert_eq!(r.path, vec![d(1), d(2)]);
    assert_eq!(r.next_hop, Some(d(3)));
    assert_eq!(r.destination, d(9));
    r.relay(d(3), Some(d(9))).unwrap();
    assert_eq!(r.path, vec![d(1), d(2), d(3)]);
}

#[test]
fn report_reverses_a_recorded_path() {
    // SEND path a -> b -> c -> z, fully recorded at the responder
    let mut r = MessageRelay::new_send(d(1), d(2), d(4));
    r.relay(d(2), Some(d(3))).unwrap();
    r.relay(d(3), Some(d(4))).unwrap();
    r.relay(d(4), None).unwrap();
    let mut rep = r.report().unwrap();
    assert_eq!(rep.method, RelayMethod::REPORT);
    assert_eq!(rep.path, vec![d(1), d(2), d(3), d(4)]);
    assert_eq!(rep.path_end_cursor, 0);
    assert_eq!(rep.destination, d(1));
    assert_eq!(rep.next_hop, Some(d(3)));

    // hop at c: cursor 1, next b
    rep.relay(d(3), None).unwrap();
    assert_eq!(rep.path_end_cursor, 1);
    assert_eq!(rep.next_hop, Some(d(2)));
    // hop at b: cursor 2, next a
    rep.relay(d(2), None).unwrap();
    assert_eq!(rep.path_end_cursor, 2);
    assert_eq!(rep.next_hop, Some(d(1)));
    // hop at a: cursor 3, terminates
    rep.relay(d(1), None).unwrap();
    assert_eq!(rep.path_end_cursor, 3);
    assert_eq!(rep.next_hop, None);
    // the path itself never changed
    assert_eq!(rep.path, vec![d(1), d(2), d(3), d(4)]);
    // walking past the origin is refused
    assert_eq!(rep.relay(d(1), None), Err(Error::InvalidPayload));
}

#[test]
fn report_needs_a_walkable_path() {
    let r = MessageRelay::new_send(d(1), d(1), d(1));
    // a single-entry path cannot be walked back
    assert!(r.report().is_err());
}

#[test]
fn report_relay_refuses_an_explicit_next_hop() {
    let mut r = MessageRelay::new_send(d(1), d(2), d(3));
    r.relay(d(2), Some(d(3))).unwrap();
    r.relay(d(3), None).unwrap();
    let mut rep = r.report().unwrap();
    assert_eq!(rep.relay(d(2), Some(d(9))), Err(Error::InvalidPayload));
}

#[test]
fn reset_destination_only_outward() {
    let mut r = MessageRelay::new_send(d(1), d(2), d(3));
    r.reset_destination(d(7)).unwrap();
    assert_eq!(r.destination, d(7));
    r.relay(d(2), Some(d(3))).unwrap();
    r.relay(d(3), None).unwrap();
    let mut rep = r.report().unwrap();
    assert!(rep.reset_destination(d(8)).is_err());
}
