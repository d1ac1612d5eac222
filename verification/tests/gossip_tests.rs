use chat_core::gossip::{chat_gossipsub, GossipSetupError};
use chat_core::generate_identity;

#[test]
fn chat_gossip_listens_to_the_chat_topic_only() {
    let (key, _) = generate_identity();
    let b = chat_gossipsub(&key).expect("gossip behaviour");
    let topics: Vec<String> = b.topics().map(|t| t.to_string()).collect();
    assert_eq!(topics, vec!["global-chat".to_string()]);
}

#[test]
fn chat_gossip_setup_never_fails_for_a_fresh_key() {
    for _ in 0..3 {
        let (key, _) = generate_identity();
        let r: Result<_, GossipSetupError> = chat_gossipsub(&key);
        assert!(r.is_ok());
    }
}
