//! The gossip side of a chat node: a gossipsub behaviour that signs what it
//! publishes with the node's key, validates strictly what it receives, beats
//! every ten seconds, tells messages apart by `message_id`, and listens to the
//! one chat topic.

use vstd::prelude::*;
use std::time::Duration;
use libp2p::gossipsub::{
    AllowAllSubscriptionFilter, Behaviour, Config, ConfigBuilder, IdentTopic, IdentityTransform,
    Message, MessageAuthenticity, MessageId, ValidationMode,
};
use libp2p::identity::Keypair;
use crate::p2p::{
    is_message_digest, message_data_of, message_id, message_sequence_number_of, message_source_of,
    peer_id_of_key, GLOBAL_TOPIC_NAME, HEARTBEAT_INTERVAL_SECS,
};
use crate::text::decimal_numeral;
use vstd::utf8::encode_utf8;

verus! {

/// `libp2p::gossipsub::Config`, carried opaquely.
#[verifier::external_type_specification]
#[verifier::external_body]
pub struct ExConfig(Config);

/// `libp2p::gossipsub::IdentityTransform`, carried opaquely.
#[verifier::external_type_specification]
#[verifier::external_body]
pub struct ExIdentityTransform(IdentityTransform);

/// `libp2p::gossipsub::AllowAllSubscriptionFilter`, carried opaquely.
#[verifier::external_type_specification]
#[verifier::external_body]
pub struct ExAllowAllSubscriptionFilter(AllowAllSubscriptionFilter);

/// `libp2p::gossipsub::Behaviour`, carried opaquely.
#[verifier::external_type_specification]
#[verifier::external_body]
#[verifier::reject_recursive_types(D)]
#[verifier::reject_recursive_types(F)]
pub struct ExBehaviour<D, F>(Behaviour<D, F>);

/// `libp2p::gossipsub::ValidationMode`, how strictly received messages are
/// checked.
#[verifier::external_type_specification]
pub struct ExValidationMode(ValidationMode);

/// The gossipsub behaviour of a chat node.
pub type ChatGossipsub = Behaviour<IdentityTransform, AllowAllSubscriptionFilter>;

/// The heartbeat interval of a configuration, in whole seconds
/// (`Config::heartbeat_interval`).
pub uninterp spec fn heartbeat_secs_of(config: Config) -> u64;

/// The validation mode of a configuration (`Config::validation_mode`).
pub uninterp spec fn validation_mode_of(config: Config) -> ValidationMode;

/// The bytes of the identifier a configuration gives a message
/// (`Config::message_id`).
pub uninterp spec fn config_message_id_of(config: Config, message: Message) -> Seq<u8>;

/// Whether a configuration gives every message as its identifier the bytes
/// of the decimal digest that `message_id` computes from the message's data,
/// source and sequence number.
#[verifier::opaque]
pub open spec fn identifies_by_digest(config: Config) -> bool {
    forall|m: Message|
        #![trigger config_message_id_of(config, m)]
        exists|d: u64|
            #![trigger decimal_numeral(d as nat)]
            config_message_id_of(config, m) == encode_utf8(decimal_numeral(d as nat))
                && is_message_digest(d, message_data_of(m), message_source_of(m), message_sequence_number_of(m))
}

/// Builds a configuration with `ConfigBuilder::default()`, the given
/// heartbeat interval and validation mode, and `message_id` as the message
/// identifier function, then `build()`. The build checks only settings this
/// leaves at their (valid) defaults, so it always succeeds. The last clause
/// restates the one before it under the name `identifies_by_digest`.
#[verifier::external_body]
fn build_config(heartbeat_secs: u64, mode: ValidationMode) -> (r: Option<Config>)
    ensures
        r is Some,
        r matches Some(c) ==> heartbeat_secs_of(c) == heartbeat_secs && validation_mode_of(c) == mode,
        r matches Some(c) ==> forall|m: Message|
            #![trigger config_message_id_of(c, m)]
            exists|d: u64|
                #![trigger decimal_numeral(d as nat)]
                config_message_id_of(c, m) == encode_utf8(decimal_numeral(d as nat))
                    && is_message_digest(
                    d,
                    message_data_of(m),
                    message_source_of(m),
                    message_sequence_number_of(m),
                ),
        r matches Some(c) ==> identifies_by_digest(c),
{
    ConfigBuilder::default()
        .heartbeat_interval(Duration::from_secs(heartbeat_secs))
        .validation_mode(mode)
        .message_id_fn(|m: &Message| MessageId::from(message_id(m)))
        .build()
        .ok()
}

/// The configuration a behaviour runs with.
pub uninterp spec fn behaviour_config_of(b: ChatGossipsub) -> Config;

/// The peer a behaviour signs published messages as, when it signs them.
pub uninterp spec fn signing_author_of(b: ChatGossipsub) -> Option<libp2p::PeerId>;

/// The topics (by hash; an identity-hashed topic's hash is its name) a
/// behaviour is subscribed to: those in its mesh.
pub uninterp spec fn subscribed_topics_of(b: ChatGossipsub) -> Set<Seq<char>>;

/// `Behaviour::new(MessageAuthenticity::Signed(key.clone()), config)`: a
/// behaviour that signs as the key's peer id, with this configuration and no
/// topics yet. It is refused only with the `Anonymous` validation mode, which
/// cannot accept signed messages.
#[verifier::external_body]
fn signed_behaviour(key: &Keypair, config: Config) -> (r: Option<ChatGossipsub>)
    ensures
        r is Some <==> validation_mode_of(config) != ValidationMode::Anonymous,
        r matches Some(b) ==> behaviour_config_of(b) == config && signing_author_of(b) == Some(
            peer_id_of_key(*key),
        ) && subscribed_topics_of(b) == Set::<Seq<char>>::empty(),
{
    Behaviour::new(MessageAuthenticity::Signed(key.clone()), config).ok()
}

/// `Behaviour::subscribe(&IdentTopic::new(name))`. With the allow-all filter
/// it never fails; it answers whether the topic is new, and afterwards the
/// topic is in the mesh. Configuration and signing stay as they were.
#[verifier::external_body]
fn subscribe_topic(b: &mut ChatGossipsub, name: &str) -> (r: Option<bool>)
    ensures
        r == Some(!subscribed_topics_of(*old(b)).contains(name@)),
        subscribed_topics_of(*final(b)) == subscribed_topics_of(*old(b)).insert(name@),
        behaviour_config_of(*final(b)) == behaviour_config_of(*old(b)),
        signing_author_of(*final(b)) == signing_author_of(*old(b)),
{
    b.subscribe(&IdentTopic::new(name)).ok()
}

/// Why the gossip behaviour could not be set up.
#[derive(Debug, PartialEq, Eq)]
pub enum GossipSetupError {
    /// The configuration was refused.
    Config,
    /// The behaviour was refused.
    Behaviour,
    /// Subscribing to the chat topic failed.
    Subscribe,
}

/// The gossip behaviour of a chat node: signed with `local_key`, strict
/// validation, a heartbeat of `HEARTBEAT_INTERVAL_SECS` seconds, messages
/// told apart by `message_id`, and subscribed to the chat topic alone.
pub fn chat_gossipsub(local_key: &Keypair) -> (r: Result<ChatGossipsub, GossipSetupError>)
    ensures
        r is Ok,
        r matches Ok(b) ==> {
            &&& signing_author_of(b) == Some(peer_id_of_key(*local_key))
            &&& subscribed_topics_of(b) == set![GLOBAL_TOPIC_NAME@]
            &&& heartbeat_secs_of(behaviour_config_of(b)) == HEARTBEAT_INTERVAL_SECS
            &&& validation_mode_of(behaviour_config_of(b)) == ValidationMode::Strict
        },
        r is Ok ==> identifies_by_digest(behaviour_config_of(r->Ok_0)),
{
    let config = match build_config(HEARTBEAT_INTERVAL_SECS, ValidationMode::Strict) {
        Some(c) => c,
        None => return Err(GossipSetupError::Config),
    };
    let mut gossipsub = match signed_behaviour(local_key, config) {
        Some(b) => b,
        None => return Err(GossipSetupError::Behaviour),
    };
    match subscribe_topic(&mut gossipsub, GLOBAL_TOPIC_NAME) {
        Some(_) => {},
        None => return Err(GossipSetupError::Subscribe),
    }
    assert(Set::<Seq<char>>::empty().insert(GLOBAL_TOPIC_NAME@) =~= set![GLOBAL_TOPIC_NAME@]);
    Ok(gossipsub)
}

} // verus!
