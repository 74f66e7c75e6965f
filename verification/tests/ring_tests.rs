//! The ring state machine: join, lookup, notify, fingers, storage.

use rings_node::did::Did;
use rings_node::ring::PeerRing;
use rings_node::ring::PeerRingAction;
use rings_node::ring::PeerRingRemoteAction;
use rings_node::vnode::VirtualNode;

fn d(x: u128) -> Did {
    Did::new(0, x)
}

#[test]
fn join_adopts_first_peer_and_asks_it_for_our_successor() {
    let mut ring = PeerRing::new(d(1));
    match ring.join(d(2)) {
        PeerRingAction::RemoteAction(next, PeerRingRemoteAction::FindSuccessor(id)) => {
            assert_eq!(next, d(2));
            assert_eq!(id, d(1));
        },
        _ => panic!("join should ask the joiner for our successor"),
    }
    assert_eq!(ring.successor.list(), vec![d(2)]);
    // joining oneself and duplicate joins change nothing
    assert!(matches!(ring.join(d(1)), PeerRingAction::Idle));
    ring.join(d(2));
    assert_eq!(ring.successor.list(), vec![d(2)]);
}

#[test]
fn join_adopts_only_closer_peers() {
    let mut ring = PeerRing::new(d(10));
    ring.join(d(14));
    ring.join(d(12));
    assert_eq!(ring.successor.list(), vec![d(12), d(14)]);
    // 5 wraps nearly all the way round: farther than 14, not adopted
    ring.join(d(5));
    assert_eq!(ring.successor.list(), vec![d(12), d(14)]);
}

#[test]
fn find_successor_answers_the_closest_when_in_reach() {
    let mut ring = PeerRing::new(d(10));
    ring.join(d(14));
    match ring.find_successor(d(12)) {
        PeerRingAction::Answer(id) => assert_eq!(id, d(14)),
        _ => panic!("target within reach answers locally"),
    }
    // empty ring answers the node itself
    let lone = PeerRing::new(d(10));
    match lone.find_successor(d(10)) {
        PeerRingAction::Answer(id) => assert_eq!(id, d(10)),
        _ => panic!("an empty ring answers itself"),
    }
}

#[test]
fn find_successor_routes_via_the_closest_preceding_finger() {
    let mut ring = PeerRing::new(d(10));
    ring.join(d(12));
    ring.finger[100] = Some(d(100));
    // target 200 is farther than the farthest successor (12), and finger
    // 100 lies in the open interval (10, 200)
    match ring.find_successor(d(200)) {
        PeerRingAction::RemoteAction(next, PeerRingRemoteAction::FindSuccessor(t)) => {
            assert_eq!(next, d(100));
            assert_eq!(t, d(200));
        },
        _ => panic!("an out-of-reach target routes onwards"),
    }
    // with no finger preceding the target there is nobody to route to:
    // the closest successor is answered instead of looping
    let mut bare = PeerRing::new(d(10));
    bare.successor.update(d(12));
    match bare.find_successor(d(200)) {
        PeerRingAction::Answer(id) => assert_eq!(id, d(12)),
        _ => panic!("without a preceding finger the lookup answers locally"),
    }
}

#[test]
fn notify_applied_twice_equals_once() {
    let mut once = PeerRing::new(d(10));
    once.notify(d(7));
    let after_once = once.predecessor;
    once.notify(d(7));
    assert_eq!(once.predecessor, after_once);
    assert_eq!(after_once, Some(d(7)));

    // a closer candidate replaces, a farther one does not; repeats stay put
    let mut ring = PeerRing::new(d(10));
    ring.notify(d(5));
    ring.notify(d(8));
    assert_eq!(ring.predecessor, Some(d(8)));
    ring.notify(d(8));
    assert_eq!(ring.predecessor, Some(d(8)));
    ring.notify(d(5));
    assert_eq!(ring.predecessor, Some(d(8)));
}

#[test]
fn fix_fingers_fills_the_cursor_entry_locally() {
    // forced cursor zero: the probe is the next id on the ring
    let mut ring = PeerRing::new(d(10));
    ring.join(d(14));
    assert_eq!(ring.fix_finger_index, 0);
    match ring.fix_fingers() {
        PeerRingAction::Idle => {},
        _ => panic!("a probe within reach fills the entry locally"),
    }
    assert_eq!(ring.finger[0], Some(d(14)));
    assert_eq!(ring.fix_finger_index, 1);
}

#[test]
fn fix_fingers_asks_a_remote_peer_for_a_far_probe() {
    let mut ring = PeerRing::new(d(10));
    ring.join(d(12));
    // walk the cursor to a probe beyond the farthest successor
    let mut asked = None;
    for _ in 0..160 {
        match ring.fix_fingers() {
            PeerRingAction::RemoteAction(next, PeerRingRemoteAction::FindSuccessorForFix(p)) => {
                asked = Some((next, p));
                break;
            },
            _ => {},
        }
    }
    let (next, probe) = asked.expect("some probe leaves the successor span");
    assert_eq!(next, d(12));
    // the cursor stays on the probed entry until the report comes back
    let idx = ring.fix_finger_index;
    ring.set_fixed_finger(d(77));
    assert_eq!(ring.finger[idx], Some(d(77)));
    assert_eq!(ring.fix_finger_index, (idx + 1) % 160);
    assert!(probe.lt(&d(10)) || d(10).lt(&probe));
}

#[test]
fn sync_with_successor_partitions_the_store() {
    let mut ring = PeerRing::new(d(10));
    ring.store(VirtualNode { did: d(12), data: b"keep".to_vec() });
    ring.store(VirtualNode { did: d(20), data: b"move".to_vec() });
    ring.store(VirtualNode { did: d(14), data: b"edge".to_vec() });
    match ring.sync_with_successor(d(14)) {
        PeerRingAction::RemoteAction(next, PeerRingRemoteAction::SyncVNodeWithSuccessor(vs)) => {
            assert_eq!(next, d(14));
            assert_eq!(vs.len(), 1);
            assert_eq!(vs[0].did, d(20));
        },
        _ => panic!("sync hands the migrating values to the successor"),
    }
    // keys in (10, 14] stay
    assert!(ring.lookup(d(12)).is_some());
    assert!(ring.lookup(d(14)).is_some());
    assert!(ring.lookup(d(20)).is_none());
}

#[test]
fn store_replaces_under_the_same_key() {
    let mut ring = PeerRing::new(d(10));
    ring.store(VirtualNode { did: d(12), data: b"one".to_vec() });
    ring.store(VirtualNode { did: d(12), data: b"two".to_vec() });
    assert_eq!(ring.storage.len(), 1);
    assert_eq!(ring.lookup(d(12)).unwrap().data, b"two".to_vec());
}

#[test]
fn remove_drops_a_peer_everywhere() {
    let mut ring = PeerRing::new(d(10));
    ring.join(d(12));
    ring.join(d(11));
    ring.notify(d(9));
    ring.finger[3] = Some(d(12));
    ring.finger[4] = Some(d(11));
    ring.remove(d(12));
    assert_eq!(ring.successor.list(), vec![d(11)]);
    assert_eq!(ring.finger[3], None);
    assert_eq!(ring.finger[4], Some(d(11)));
    ring.remove(d(9));
    assert_eq!(ring.predecessor, None);
}

#[test]
fn leave_hands_the_store_to_the_successor() {
    let mut ring = PeerRing::new(d(10));
    ring.join(d(12));
    ring.store(VirtualNode { did: d(30), data: b"bye".to_vec() });
    match ring.leave() {
        PeerRingAction::RemoteAction(next, PeerRingRemoteAction::SyncVNodeWithSuccessor(vs)) => {
            assert_eq!(next, d(12));
            assert_eq!(vs.len(), 1);
        },
        _ => panic!("a leaving node hands its store over"),
    }
    assert!(ring.storage.is_empty());
    // a lone node has nobody to notify
    let mut lone = PeerRing::new(d(10));
    assert!(matches!(lone.leave(), PeerRingAction::Idle));
}
