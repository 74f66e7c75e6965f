//! Wire-format round trips of the payload envelope.

use rings_node::codec_exec::decode;
use rings_node::codec_exec::encode;
use rings_node::did::Did;
use rings_node::message::ConnectNodeSend;
use rings_node::message::FindSuccessorSend;
use rings_node::message::FindSuccessorThen;
use rings_node::message::JoinDHT;
use rings_node::message::Message;
use rings_node::message::MessagePayload;
use rings_node::message::MessageVerification;
use rings_node::message::MultiCall;
use rings_node::message::StoreVNode;
use rings_node::relay::MessageRelay;
use rings_node::relay::RelayMethod;
use rings_node::vnode::VirtualNode;

fn d(x: u128) -> Did {
    Did::new(0, x)
}

fn verification(sig: &[u8], pk: &[u8]) -> MessageVerification {
    MessageVerification { signature: sig.to_vec(), pubkey: pk.to_vec() }
}

fn payload(msg: Message, relay: MessageRelay) -> MessagePayload {
    MessagePayload {
        tx_id: 0x0011223344556677_8899aabbccddeeff,
        data: msg,
        origin_verification: verification(b"origin-sig", b"origin-key"),
        verification: verification(b"hop-sig", b"hop-key"),
        relay,
    }
}

fn assert_payload_round_trip(p: MessagePayload) -> MessagePayload {
    let bytes = encode(&p).unwrap();
    let back = decode(bytes.as_slice()).unwrap();
    assert_eq!(back.tx_id, p.tx_id);
    assert_eq!(back.relay.method, p.relay.method);
    assert_eq!(back.relay.path, p.relay.path);
    assert_eq!(back.relay.path_end_cursor, p.relay.path_end_cursor);
    assert_eq!(back.relay.next_hop, p.relay.next_hop);
    assert_eq!(back.relay.destination, p.relay.destination);
    assert_eq!(back.origin_verification.signature, p.origin_verification.signature);
    assert_eq!(back.origin_verification.pubkey, p.origin_verification.pubkey);
    assert_eq!(back.verification.signature, p.verification.signature);
    assert_eq!(back.verification.pubkey, p.verification.pubkey);
    back
}

#[test]
fn round_trip_join() {
    let p = payload(
        Message::JoinDHT(JoinDHT { id: d(42) }),
        MessageRelay::new_send(d(1), d(2), d(3)),
    );
    let back = assert_payload_round_trip(p);
    match back.data {
        Message::JoinDHT(b) => assert_eq!(b.id, d(42)),
        _ => panic!("wrong variant decoded"),
    }
}

#[test]
fn round_trip_connect_node_send() {
    let p = payload(
        Message::ConnectNodeSend(ConnectNodeSend {
            sender_id: d(1),
            target_id: d(3),
            transport_uuid: b"uuid-1234".to_vec(),
            handshake_info: b"an offer blob".to_vec(),
        }),
        MessageRelay::new_send(d(1), d(2), d(3)),
    );
    let back = assert_payload_round_trip(p);
    match back.data {
        Message::ConnectNodeSend(b) => {
            assert_eq!(b.sender_id, d(1));
            assert_eq!(b.target_id, d(3));
            assert_eq!(b.transport_uuid, b"uuid-1234".to_vec());
            assert_eq!(b.handshake_info, b"an offer blob".to_vec());
        },
        _ => panic!("wrong variant decoded"),
    }
}

#[test]
fn round_trip_find_successor_with_report_relay() {
    let mut relay = MessageRelay::new_send(d(1), d(2), d(2));
    relay.relay(d(2), None).unwrap();
    let report = relay.report().unwrap();
    assert_eq!(report.method, RelayMethod::REPORT);
    let p = payload(
        Message::FindSuccessorSend(FindSuccessorSend {
            id: d(7),
            handler: FindSuccessorThen::FixFingerTable,
            strict: true,
        }),
        report,
    );
    let back = assert_payload_round_trip(p);
    match back.data {
        Message::FindSuccessorSend(b) => {
            assert_eq!(b.id, d(7));
            assert_eq!(b.handler, FindSuccessorThen::FixFingerTable);
            assert!(b.strict);
        },
        _ => panic!("wrong variant decoded"),
    }
}

#[test]
fn round_trip_store_vnode() {
    let p = payload(
        Message::StoreVNode(StoreVNode {
            data: vec![
                VirtualNode { did: d(5), data: b"alpha".to_vec() },
                VirtualNode { did: d(6), data: vec![] },
            ],
        }),
        MessageRelay::new_send(d(1), d(2), d(5)),
    );
    let back = assert_payload_round_trip(p);
    match back.data {
        Message::StoreVNode(b) => {
            assert_eq!(b.data.len(), 2);
            assert_eq!(b.data[0].did, d(5));
            assert_eq!(b.data[0].data, b"alpha".to_vec());
            assert_eq!(b.data[1].did, d(6));
            assert!(b.data[1].data.is_empty());
        },
        _ => panic!("wrong variant decoded"),
    }
}

#[test]
fn round_trip_nested_multi_call() {
    let inner = vec![
        Message::JoinDHT(JoinDHT { id: d(8) }),
        Message::MultiCall(MultiCall {
            messages: vec![Message::CustomMessage(rings_node::message::CustomMessage(
                b"hello".to_vec(),
            ))],
        }),
    ];
    let p = payload(
        Message::MultiCall(MultiCall { messages: inner }),
        MessageRelay::new_send(d(1), d(2), d(3)),
    );
    let back = assert_payload_round_trip(p);
    match back.data {
        Message::MultiCall(outer) => {
            assert_eq!(outer.messages.len(), 2);
            match &outer.messages[0] {
                Message::JoinDHT(b) => assert_eq!(b.id, d(8)),
                _ => panic!("wrong inner variant"),
            }
            match &outer.messages[1] {
                Message::MultiCall(nested) => {
                    assert_eq!(nested.messages.len(), 1);
                    match &nested.messages[0] {
                        Message::CustomMessage(c) => assert_eq!(c.0, b"hello".to_vec()),
                        _ => panic!("wrong nested variant"),
                    }
                },
                _ => panic!("wrong inner variant"),
            }
        },
        _ => panic!("wrong variant decoded"),
    }
}

#[test]
fn decode_rejects_truncated_and_trailing_bytes() {
    let p = payload(
        Message::JoinDHT(JoinDHT { id: d(42) }),
        MessageRelay::new_send(d(1), d(2), d(3)),
    );
    let bytes = encode(&p).unwrap();
    assert!(decode(&bytes[..bytes.len() - 1]).is_err());
    assert!(decode(&bytes[..10]).is_err());
    let mut extended = bytes.clone();
    extended.push(0);
    assert!(decode(extended.as_slice()).is_err());
}

#[test]
fn decode_rejects_unknown_variant_tag() {
    let p = payload(
        Message::JoinDHT(JoinDHT { id: d(42) }),
        MessageRelay::new_send(d(1), d(2), d(3)),
    );
    let mut bytes = encode(&p).unwrap();
    // the body tag is 21 bytes from the end: tag, then the 20-byte id
    let at = bytes.len() - 21;
    bytes[at] = 250;
    assert!(decode(bytes.as_slice()).is_err());
}

#[test]
fn signing_input_is_body_then_relay_then_tx() {
    let relay = MessageRelay::new_send(d(1), d(2), d(3));
    let msg = Message::JoinDHT(JoinDHT { id: d(42) });
    let input = rings_node::codec_exec::signing_input(&msg, &relay, 7).unwrap();
    // tag + id, then the relay, then 16 bytes of transaction id
    assert_eq!(input[0], 0);
    assert_eq!(&input[input.len() - 16..], &[0, 0, 0, 0, 0, 0, 0, 0, 0, 0, 0, 0, 0, 0, 0, 7]);
}

#[test]
fn signed_payload_verifies_and_tampering_shows() {
    let mut rng = rand::thread_rng();
    let sk = libsecp256k1::SecretKey::random(&mut rng);
    let pk = libsecp256k1::PublicKey::from_secret_key(&sk);
    let msg = Message::JoinDHT(JoinDHT { id: d(42) });
    let relay = MessageRelay::new_send(d(1), d(2), d(3));
    let tx = 99u128;
    let input = rings_node::codec_exec::signing_input(&msg, &relay, tx).unwrap();
    let digest = web3::signing::keccak256(input.as_slice());
    let (sig, _) = libsecp256k1::sign(&libsecp256k1::Message::parse(&digest), &sk);
    let v = MessageVerification {
        signature: sig.serialize().to_vec(),
        pubkey: pk.serialize().to_vec(),
    };
    let v2 = MessageVerification {
        signature: sig.serialize().to_vec(),
        pubkey: pk.serialize().to_vec(),
    };
    let p = MessagePayload {
        tx_id: tx,
        data: msg,
        origin_verification: v,
        verification: v2,
        relay,
    };
    assert_eq!(p.verify(), Ok(true));
    // the immediate sender derives from the hop verification's key
    let digest_of_key = web3::signing::keccak256(&pk.serialize()[1..]);
    assert_eq!(p.addr(), Some(Did::from_bytes(&digest_of_key[12..])));
    // a tampered body no longer verifies
    let tampered = MessagePayload {
        data: Message::JoinDHT(JoinDHT { id: d(43) }),
        ..p
    };
    assert_eq!(tampered.verify(), Ok(false));
    // garbage in place of a signature is refused outright
    let broken = MessagePayload {
        origin_verification: MessageVerification {
            signature: b"junk".to_vec(),
            pubkey: pk.serialize().to_vec(),
        },
        ..tampered
    };
    assert!(broken.verify().is_err());
}
