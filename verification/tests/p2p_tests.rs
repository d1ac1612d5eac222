use std::collections::hash_map::DefaultHasher;
use std::hash::{Hash, Hasher};

use chat_core::network::dial_target;
use chat_core::p2p::{message_digest, message_id_from_digest};
use chat_core::{interpret_line, LineCommand};
use chat_core::p2p::{HEARTBEAT_INTERVAL_SECS, IDLE_CONNECTION_TIMEOUT_SECS};
use chat_core::{generate_identity, message_id, GLOBAL_TOPIC_NAME};
use libp2p::gossipsub::{Message, TopicHash};
use libp2p::identity::KeyType;
use libp2p::{Multiaddr, PeerId};

fn sample_message(data: &[u8], source: Option<PeerId>, seq: Option<u64>) -> Message {
    Message {
        source,
        data: data.to_vec(),
        sequence_number: seq,
        topic: TopicHash::from_raw(GLOBAL_TOPIC_NAME),
    }
}

fn expected_id(m: &Message) -> String {
    let mut s = DefaultHasher::new();
    m.data.hash(&mut s);
    m.source.hash(&mut s);
    m.sequence_number.hash(&mut s);
    s.finish().to_string()
}

#[test]
fn identity_peer_id_belongs_to_the_key() {
    let (key, id) = generate_identity();
    assert_eq!(id, PeerId::from(key.public()));
}

#[test]
fn identity_key_is_ed25519() {
    let (key, _) = generate_identity();
    assert_eq!(key.key_type(), KeyType::Ed25519);
    let (key, id) = generate_identity();
    let bytes = id.to_bytes();
    assert_eq!(bytes.len(), 38);
    assert_eq!(&bytes[..6], &[0x00, 0x24, 0x08, 0x01, 0x12, 0x20]);
    let public = key.public().try_into_ed25519().unwrap().to_bytes();
    assert_eq!(&bytes[6..], &public[..]);
    let text = id.to_string();
    assert_eq!(text.len(), 52);
    assert!(text.starts_with("12D3KooW"));
}

#[test]
fn digest_ignores_the_topic() {
    let (_, peer) = generate_identity();
    let a = sample_message(b"same", Some(peer), Some(9));
    let mut b = a.clone();
    b.topic = TopicHash::from_raw("elsewhere");
    assert_eq!(message_digest(&a), message_digest(&b));
    assert_eq!(message_digest(&a).to_string(), expected_id(&a));
}

#[test]
fn identities_differ() {
    let (_, a) = generate_identity();
    let (_, b) = generate_identity();
    assert_ne!(a, b);
}

#[test]
fn peer_id_text_round_trips() {
    let (_, id) = generate_identity();
    let text = id.to_string();
    assert_eq!(interpret_line(&format!("/find {text}")), LineCommand::FindPeer(id));
}

#[test]
fn bad_peer_id_text_is_refused() {
    assert_eq!(interpret_line("/find not-a-peer-id"), LineCommand::InvalidPeerId);
    assert_eq!(interpret_line("/find 0OIl"), LineCommand::InvalidPeerId);
}

#[test]
fn multiaddr_parsing() {
    let a = dial_target("/ip4/127.0.0.1/tcp/4001");
    assert_eq!(a, Some("/ip4/127.0.0.1/tcp/4001".parse::<Multiaddr>().unwrap()));
    assert_eq!(dial_target("ip4/127.0.0.1"), None);
    assert_eq!(dial_target("/ip4/999.0.0.1/tcp/1"), None);
    assert_eq!(dial_target("/ip4/1.2.3.4/tcp/notaport"), None);
}

#[test]
fn message_id_is_the_decimal_digest() {
    let (_, peer) = generate_identity();
    let m = sample_message(b"{\"sender\":\"a\",\"content\":\"b\"}", Some(peer), Some(42));
    assert_eq!(message_id(&m), expected_id(&m));
}

#[test]
fn message_id_without_source() {
    let m = sample_message(b"x", None, None);
    let id = message_id(&m);
    assert_eq!(id, expected_id(&m));
    assert!(id.chars().all(|c| c.is_ascii_digit()));
}

#[test]
fn same_message_same_id() {
    let (_, peer) = generate_identity();
    let a = sample_message(b"hello", Some(peer), Some(1));
    let b = sample_message(b"hello", Some(peer), Some(1));
    assert_eq!(message_id(&a), message_id(&b));
}

#[test]
fn different_sequence_number_different_id() {
    let (_, peer) = generate_identity();
    let a = sample_message(b"hello", Some(peer), Some(1));
    let b = sample_message(b"hello", Some(peer), Some(2));
    assert_ne!(message_id(&a), message_id(&b));
}

#[test]
fn digest_to_id() {
    assert_eq!(message_id_from_digest(0), "0");
    assert_eq!(message_id_from_digest(1234), "1234");
    assert_ne!(message_id_from_digest(10), message_id_from_digest(1));
}

#[test]
fn swarm_settings() {
    assert_eq!(GLOBAL_TOPIC_NAME, "global-chat");
    assert_eq!(HEARTBEAT_INTERVAL_SECS, 10);
    assert_eq!(IDLE_CONNECTION_TIMEOUT_SECS, 60);
}
