//! The processor facade: signatures, framing, addresses, build facts.

use rings_node::backend::pack_text_message;
use rings_node::backend::BackendMessage;
use rings_node::backend::MessageType;
use rings_node::browser::get_did;
use rings_node::browser::internal_info;
use rings_node::browser::Client;
use rings_node::crypto::PublicKey;
use rings_node::crypto::SecretKey;
use rings_node::did::Did;
use rings_node::error::Error;
use rings_node::jsonrpc::CustomBackendMessage;
use rings_node::jsonrpc::TransportInfo;
use rings_node::message::CustomMessage;
use rings_node::processor::unpack_text_message;
use rings_node::processor::AddressType;
use rings_node::processor::Processor;

use base64::Engine;

fn random_keypair() -> (SecretKey, PublicKey) {
    let mut rng = rand::thread_rng();
    let sk = libsecp256k1::SecretKey::random(&mut rng);
    let pk = libsecp256k1::PublicKey::from_secret_key(&sk);
    (
        SecretKey::new(sk.serialize().to_vec()),
        PublicKey::new(pk.serialize().to_vec()),
    )
}

#[test]
fn test_create_and_verify_signature() {
    let (key1, pub1) = random_keypair();
    let (_key2, pub2) = random_keypair();
    let signature = Processor::generate_signature(&key1).unwrap();
    let verify1 = Processor::verify_signature(signature.as_bytes(), &pub1).unwrap();
    assert!(verify1, "signature should be verified");
    let verify2 = Processor::verify_signature(b"abc", &pub1);
    assert!(verify2.is_err(), "verify2 should be error");
    let verify3 = Processor::verify_signature(signature.as_bytes(), &pub2).unwrap();
    assert!(!verify3, "verify3 should be false");
}

#[test]
fn processor_owns_its_identifier() {
    let did = Did::new(5, 77);
    let p = Processor::new(did, 20);
    assert_eq!(p.did(), did);
    assert_eq!(p.stabilization.get_timeout(), 20);
    let client = Client::new_client(p);
    assert_eq!(client.address(), did.to_hex());
}

#[test]
fn text_message_framing_round_trip() {
    let framed = pack_text_message(b"hello");
    assert_eq!(&framed[..4], &[0, 0, 0, 0]);
    let text = unpack_text_message(&CustomMessage(framed)).unwrap();
    assert_eq!(text, "hello");
}

#[test]
fn unpack_rejects_bad_frames() {
    assert_eq!(
        unpack_text_message(&CustomMessage(vec![0, 0])),
        Err(Error::InvalidData)
    );
    assert_eq!(
        unpack_text_message(&CustomMessage(vec![1, 0, 0, 0, 65])),
        Err(Error::InvalidData)
    );
    assert_eq!(
        unpack_text_message(&CustomMessage(vec![0, 0, 0, 0, 0xff, 0xfe])),
        Err(Error::InvalidData)
    );
}

#[test]
fn backend_message_bytes_round_trip() {
    let m = BackendMessage::new(MessageType::SimpleText.tag(), vec![7u8; 30], b"payload".to_vec())
        .unwrap();
    let bytes = m.to_bytes();
    assert_eq!(bytes.len(), 2 + 30 + 7);
    let back = BackendMessage::from_bytes(bytes.as_slice()).unwrap();
    assert_eq!(back.message_type, MessageType::SimpleText.tag());
    assert_eq!(back.extra, vec![7u8; 30]);
    assert_eq!(back.data, b"payload".to_vec());
    assert!(BackendMessage::from_bytes(&bytes[..20]).is_err());
    assert!(BackendMessage::new(1, vec![0u8; 29], vec![]).is_err());
}

#[test]
fn message_type_tags_round_trip() {
    for t in [
        MessageType::SimpleText,
        MessageType::HttpRequest,
        MessageType::HttpResponse,
        MessageType::Unknown(999),
    ] {
        assert_eq!(MessageType::of_tag(t.tag()), t);
    }
}

#[test]
fn custom_backend_message_encodes_its_data() {
    let m = BackendMessage::new(2, vec![0u8; 30], b"abc".to_vec()).unwrap();
    let c = CustomBackendMessage::from_backend(&m);
    assert_eq!(c.message_type, 2);
    assert_eq!(
        c.data,
        base64::engine::general_purpose::STANDARD.encode(b"abc")
    );
}

#[test]
fn get_did_parses_hex_addresses() {
    let d = Did::new(0xa1b2c3d4, 7);
    let parsed = get_did(d.to_hex().as_str(), AddressType::DEFAULT).unwrap();
    assert_eq!(parsed, d);
    assert_eq!(
        get_did("not-an-address", AddressType::DEFAULT),
        Err(Error::InvalidAddress)
    );
}

#[test]
fn get_did_derives_ed25519_addresses() {
    let key = [9u8; 32];
    let text = bs58::encode(&key).into_string();
    let parsed = get_did(text.as_str(), AddressType::ED25519).unwrap();
    let digest = web3::signing::keccak256(&key);
    let expected = Did::from_bytes(&digest[12..]);
    assert_eq!(parsed, expected);
    assert_eq!(
        get_did("0OIl", AddressType::ED25519),
        Err(Error::InvalidAddress)
    );
}

#[test]
fn build_info_carries_a_version() {
    let info = internal_info();
    assert_eq!(info.build_version(), "0.1.0");
}

#[test]
fn transport_info_defaults_to_unknown_state() {
    let t = TransportInfo::new(String::from("id-1"), None);
    assert_eq!(t.state, "Unknown");
    let t2 = TransportInfo::new(String::from("id-2"), Some(String::from("connected")));
    assert_eq!(t2.state, "connected");
}
