//! End-to-end scenarios over simulated delivery: the handlers are pure,
//! so a test can play the network.

use rings_node::did::Did;
use rings_node::handlers::Effect;
use rings_node::handlers::MessageHandler;
use rings_node::handlers::ReplayWindow;
use rings_node::message::JoinDHT;
use rings_node::message::Message;
use rings_node::message::MessagePayload;
use rings_node::message::MessageVerification;
use rings_node::message::MultiCall;
use rings_node::message::NotifyPredecessorSend;
use rings_node::message::NotifyPredecessorReport;
use rings_node::relay::MessageRelay;
use rings_node::stabilization::Stabilization;

fn d(x: u128) -> Did {
    Did::new(0, x)
}

fn verification() -> MessageVerification {
    MessageVerification { signature: vec![], pubkey: vec![] }
}

fn payload(tx: u128, msg: Message, relay: MessageRelay) -> MessagePayload {
    MessagePayload {
        tx_id: tx,
        data: msg,
        origin_verification: verification(),
        verification: verification(),
        relay,
    }
}

struct Net {
    nodes: Vec<MessageHandler>,
    tx: u128,
    delivered: Vec<Vec<u8>>,
}

impl Net {
    fn new(ids: &[Did]) -> Net {
        Net {
            nodes: ids.iter().map(|&id| MessageHandler::new(id)).collect(),
            tx: 0,
            delivered: Vec::new(),
        }
    }

    fn idx(&self, id: Did) -> usize {
        self.nodes.iter().position(|n| n.dht.did == id).expect("unknown node")
    }

    fn node(&self, id: Did) -> &MessageHandler {
        &self.nodes[self.idx(id)]
    }

    fn fresh_tx(&mut self) -> u128 {
        self.tx += 1;
        self.tx
    }

    /// Open a direct transport both ways, as a finished handshake would.
    fn handshake(&mut self, a: Did, b: Did) {
        let ia = self.idx(a);
        self.nodes[ia].transports.register(b);
        let ib = self.idx(b);
        self.nodes[ib].transports.register(a);
    }

    /// Deliver one payload and route every effect until quiescent.
    fn deliver(&mut self, to: Did, p: MessagePayload) {
        let mut queue = vec![(to, p)];
        while let Some((at, p)) = queue.pop() {
            let i = self.idx(at);
            let effs = match self.nodes[i].handle_payload(&p) {
                Ok(effs) => effs,
                Err(_) => continue,
            };
            let origin = self.nodes[i].dht.did;
            let MessagePayload { tx_id, data, .. } = p;
            let mut body = Some(data);
            for e in effs {
                match e {
                    Effect::SendMessage { next_hop, destination, message } => {
                        let relay = MessageRelay::new_send(origin, next_hop, destination);
                        let tx = self.fresh_tx();
                        queue.push((next_hop, payload(tx, message, relay)));
                    },
                    Effect::SendReport { relay, message } => {
                        if let Some(nh) = relay.next_hop {
                            let tx = self.fresh_tx();
                            queue.push((nh, payload(tx, message, relay)));
                        }
                    },
                    Effect::Forward { relay } => {
                        let nh = relay.next_hop.expect("forwarding needs a next hop");
                        let msg = body.take().expect("one forward per payload");
                        queue.push((nh, payload(tx_id, msg, relay)));
                    },
                    Effect::ConnectTo { target } => {
                        // the shell would allocate a transport and offer
                        let at_did = origin;
                        let i = self.idx(at_did);
                        let eff = self.nodes[i].connect(
                            target,
                            b"sim-uuid".to_vec(),
                            b"sim-offer".to_vec(),
                        );
                        if let Effect::SendMessage { next_hop, destination, message } = eff {
                            let relay = MessageRelay::new_send(at_did, next_hop, destination);
                            let tx = self.fresh_tx();
                            queue.push((next_hop, payload(tx, message, relay)));
                        }
                    },
                    Effect::AnswerOffer { sender_id, transport_uuid, relay, .. } => {
                        // the shell would register the offer and answer it
                        let eff = self.nodes[i].make_connect_node_report(
                            sender_id,
                            relay,
                            transport_uuid,
                            b"sim-answer".to_vec(),
                        );
                        if let Effect::SendReport { relay, message } = eff {
                            if let Some(nh) = relay.next_hop {
                                let tx = self.fresh_tx();
                                queue.push((nh, payload(tx, message, relay)));
                            }
                        }
                    },
                    Effect::InstallAnswer { .. } => {},
                    Effect::Deliver { data } => {
                        self.delivered.push(data);
                    },
                    Effect::FoundValues { .. } => {},
                }
            }
        }
    }

    /// Both sides of a fresh handshake announce the join to themselves.
    fn mutual_join(&mut self, a: Did, b: Did) {
        self.handshake(a, b);
        let tx = self.fresh_tx();
        self.deliver(a, payload(tx, Message::JoinDHT(JoinDHT { id: b }), MessageRelay::new_send(a, a, a)));
        let tx = self.fresh_tx();
        self.deliver(b, payload(tx, Message::JoinDHT(JoinDHT { id: a }), MessageRelay::new_send(b, b, b)));
    }

    /// One stabilizer tick at the node.
    fn tick(&mut self, at: Did) {
        let i = self.idx(at);
        let stab = Stabilization::new(20);
        let mut sends = stab.notify_predecessor(&self.nodes[i].dht);
        if let Some(send) = stab.fix_fingers(&mut self.nodes[i].dht) {
            sends.push(send);
        }
        for (to, msg) in sends {
            let relay = MessageRelay::new_send(at, to, to);
            let tx = self.fresh_tx();
            self.deliver(to, payload(tx, msg, relay));
        }
    }
}

#[test]
fn two_node_join_converges() {
    // both nodes adopt each other and no report changes that
    let (k1, k2) = (d(1), d(2));
    let mut net = Net::new(&[k1, k2]);
    net.mutual_join(k1, k2);
    assert_eq!(net.node(k1).dht.successor.list(), vec![k2]);
    assert_eq!(net.node(k2).dht.successor.list(), vec![k1]);
}

#[test]
fn three_node_ring_learns_its_order() {
    // k1-k2 first, then k2-k3: the mid node's closest successor becomes k3
    let (k1, k2, k3) = (d(1), d(2), d(3));
    let mut net = Net::new(&[k1, k2, k3]);
    net.mutual_join(k1, k2);
    net.mutual_join(k2, k3);
    for _ in 0..3 {
        net.tick(k1);
        net.tick(k2);
        net.tick(k3);
    }
    assert_eq!(net.node(k1).dht.successor.min(), k2);
    assert_eq!(net.node(k2).dht.successor.min(), k3);
    // predecessors settle on the ring order as well
    assert_eq!(net.node(k2).dht.predecessor, Some(k1));
    assert_eq!(net.node(k3).dht.predecessor, Some(k2));
}

#[test]
fn find_successor_across_the_ring() {
    // k1-k3 first, then k2-k3: lookups route k3 -> k1 and settle the ring
    let (k1, k2, k3) = (d(1), d(2), d(3));
    let mut net = Net::new(&[k1, k2, k3]);
    net.mutual_join(k1, k3);
    net.mutual_join(k2, k3);
    assert_eq!(net.node(k1).dht.successor.list(), vec![k3]);
    assert_eq!(net.node(k2).dht.successor.list(), vec![k3]);
    assert_eq!(net.node(k3).dht.successor.min(), k1);
}

#[test]
fn notify_updates_the_predecessor_and_reports_back() {
    // a stabilizer tick at k1 tells k2, whose predecessor becomes k1
    let (k1, k2) = (d(1), d(2));
    let mut net = Net::new(&[k1, k2]);
    net.mutual_join(k1, k2);
    net.tick(k1);
    assert_eq!(net.node(k2).dht.predecessor, Some(k1));
    assert_eq!(net.node(k1).dht.successor.list(), vec![k2]);
    // notifying again changes nothing more
    net.tick(k1);
    assert_eq!(net.node(k2).dht.predecessor, Some(k1));
    assert_eq!(net.node(k1).dht.successor.list(), vec![k2]);
}

#[test]
fn fix_finger_tick_fills_the_first_entry() {
    // with the cursor still at zero, the probe is the next ring position
    // and the answer fills the first finger entry
    let (k1, k2) = (d(1), d(2));
    let mut net = Net::new(&[k1, k2]);
    net.mutual_join(k1, k2);
    net.tick(k1);
    assert_eq!(net.node(k1).dht.finger[0], Some(k2));
}

#[test]
fn transitive_connect_installs_a_transport() {
    // k1 knows k2, k2 knows k3; k1 connects to k3 through the overlay
    let (k1, k2, k3) = (d(1), d(2), d(3));
    let mut net = Net::new(&[k1, k2, k3]);
    net.mutual_join(k1, k2);
    net.mutual_join(k2, k3);
    assert!(!net.node(k1).transports.contains(k3));
    let i = net.idx(k1);
    let eff = net.nodes[i].connect(k3, b"uuid-k1-k3".to_vec(), b"offer".to_vec());
    if let Effect::SendMessage { next_hop, destination, message } = eff {
        let relay = MessageRelay::new_send(k1, next_hop, destination);
        let tx = net.fresh_tx();
        net.deliver(next_hop, payload(tx, message, relay));
    } else {
        panic!("connect authors an offer message");
    }
    assert!(net.node(k1).transports.contains(k3));
    assert!(net.node(k3).transports.contains(k1));
}

#[test]
fn custom_messages_reach_the_callback() {
    let (k1, k2) = (d(1), d(2));
    let mut net = Net::new(&[k1, k2]);
    net.mutual_join(k1, k2);
    let tx = net.fresh_tx();
    net.deliver(
        k2,
        payload(
            tx,
            Message::custom(b"hello overlay"),
            MessageRelay::new_send(k1, k2, k2),
        ),
    );
    assert_eq!(net.delivered, vec![b"hello overlay".to_vec()]);
}

#[test]
fn notify_handler_is_idempotent_end_to_end() {
    let (k1, k2) = (d(1), d(2));
    let mut net = Net::new(&[k1, k2]);
    net.mutual_join(k1, k2);
    let msg = || Message::NotifyPredecessorSend(NotifyPredecessorSend { id: k1 });
    let tx = net.fresh_tx();
    net.deliver(k2, payload(tx, msg(), MessageRelay::new_send(k1, k2, k2)));
    let after_once = net.node(k2).dht.predecessor;
    let tx = net.fresh_tx();
    net.deliver(k2, payload(tx, msg(), MessageRelay::new_send(k1, k2, k2)));
    assert_eq!(net.node(k2).dht.predecessor, after_once);
}

#[test]
fn replay_window_admits_each_tx_once() {
    let mut w = ReplayWindow::new(2);
    assert!(w.check_and_insert(7));
    assert!(!w.check_and_insert(7));
    assert!(w.check_and_insert(8));
    assert!(!w.check_and_insert(8));
    // the window is bounded: the oldest id is evicted and admitted anew
    assert!(w.check_and_insert(9));
    assert!(w.check_and_insert(7));
    assert!(!w.check_and_insert(9));
}

#[test]
fn multi_call_isolates_failures() {
    // the middle message is malformed for its handler (a backward-only
    // message on an outward header); both neighbours still take effect
    let (k1, k2) = (d(1), d(2));
    let mut net = Net::new(&[k1, k2]);
    net.mutual_join(k1, k2);
    let bundle = Message::MultiCall(MultiCall {
        messages: vec![
            Message::custom(b"first"),
            Message::NotifyPredecessorReport(NotifyPredecessorReport { id: k1 }),
            Message::custom(b"second"),
        ],
    });
    let tx = net.fresh_tx();
    net.deliver(k2, payload(tx, bundle, MessageRelay::new_send(k1, k2, k2)));
    assert_eq!(
        net.delivered,
        vec![b"first".to_vec(), b"second".to_vec()]
    );
}
