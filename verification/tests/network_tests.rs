use chat_core::network::{
    dial_outcome, has_peer_id_shape, listening_notice, outgoing_message, peer_reachable,
    publish_outcome, unknown_peer_name,
};
use chat_core::{ChatMessage, NetworkEvent};

const PEER: &str = "12D3KooWQYhTNQdmr3ArTeUHRYzFg94BKyTkoWBDWez9kSCVe2Xo";

#[test]
fn placeholder_uses_first_eight_characters() {
    assert_eq!(unknown_peer_name(PEER), "Unknown (12D3KooW)");
    assert_eq!(unknown_peer_name("abcdefgh"), "Unknown (abcdefgh)");
}

#[test]
fn placeholder_of_non_ascii_text_takes_eight_bytes() {
    assert_eq!(unknown_peer_name("ab\u{e9}cdefgh"), "Unknown (ab\u{e9}cdef)");
}

#[test]
fn peer_id_shape() {
    assert!(has_peer_id_shape(PEER));
    assert!(has_peer_id_shape("abcdefgh"));
    assert!(!has_peer_id_shape("abcdefg"));
    assert!(!has_peer_id_shape("abcdefg\u{e9}"));
    assert!(has_peer_id_shape("abcdef\u{e9}x"));
    assert!(has_peer_id_shape("abcde\u{e9}x"));
}

#[test]
fn reachable_peer_gets_placeholder() {
    assert_eq!(
        peer_reachable(PEER.to_string()),
        NetworkEvent::PeerConnected(PEER.to_string(), "Unknown (12D3KooW)".to_string())
    );
}

#[test]
fn outgoing_message_fields() {
    let m = outgoing_message(&"erin".to_string(), "hey".to_string());
    assert_eq!(m, ChatMessage { sender: "erin".to_string(), content: "hey".to_string() });
}

#[test]
fn notices() {
    assert_eq!(
        listening_notice("/ip4/0.0.0.0/tcp/5000"),
        NetworkEvent::Log("Listening on /ip4/0.0.0.0/tcp/5000".to_string())
    );
}

#[test]
fn publish_outcomes() {
    let me = "frank".to_string();
    assert_eq!(
        publish_outcome(&me, "hi".to_string(), None),
        NetworkEvent::MessageReceived("frank".to_string(), "hi".to_string())
    );
    assert_eq!(
        publish_outcome(&me, "hi".to_string(), Some("InsufficientPeers".to_string())),
        NetworkEvent::Log("Publish error: InsufficientPeers".to_string())
    );
}

#[test]
fn dial_outcomes() {
    assert_eq!(
        dial_outcome("/ip4/1.2.3.4/tcp/1", None),
        NetworkEvent::Log("Dialing /ip4/1.2.3.4/tcp/1...".to_string())
    );
    assert_eq!(
        dial_outcome("/ip4/1.2.3.4/tcp/1", Some("Aborted".to_string())),
        NetworkEvent::Log("Dial error: Aborted".to_string())
    );
}
