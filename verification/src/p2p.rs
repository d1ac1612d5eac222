//! The libp2p values the chat logic carries: node identities, the name and
//! timing of the chat topic, peer and address parsing, and the message
//! identifier gossipsub uses to recognise copies of one message.

use vstd::prelude::*;
use std::collections::hash_map::DefaultHasher;
use std::hash::{Hash, Hasher};
use vstd::std_specs::hash::DefaultHasherAdditionalSpecFns;
use libp2p::gossipsub::Message;
use libp2p::identity::{KeyType, Keypair};
use libp2p::Multiaddr;
use libp2p::PeerId;
use crate::base58::{base58, ed25519_peer_id_prefix, lemma_ed25519_peer_id_text};
use crate::text::{decimal_numeral, decimal_string};

verus! {

/// `libp2p::identity::Keypair`, carried opaquely.
#[verifier::external_type_specification]
#[verifier::external_body]
pub struct ExKeypair(Keypair);

/// `libp2p::PeerId`, carried opaquely.
#[verifier::external_type_specification]
#[verifier::external_body]
pub struct ExPeerId(PeerId);

/// `libp2p::Multiaddr`, carried opaquely.
#[verifier::external_type_specification]
#[verifier::external_body]
pub struct ExMultiaddr(Multiaddr);

/// `libp2p::gossipsub::Message`, carried opaquely.
#[verifier::external_type_specification]
#[verifier::external_body]
pub struct ExMessage(Message);

/// `libp2p::identity::KeyType`, the kind of a key.
#[verifier::external_type_specification]
pub struct ExKeyType(KeyType);

/// The kind of a keypair: `Keypair::key_type`.
pub uninterp spec fn key_type_of(key: Keypair) -> KeyType;

/// The 32 bytes of the Ed25519 public key of a keypair:
/// `key.public().try_into_ed25519()` then `to_bytes()`.
pub uninterp spec fn ed25519_public_bytes_of(key: Keypair) -> Seq<u8>;

/// The bytes of a peer id: `PeerId::to_bytes`, a multihash.
pub uninterp spec fn peer_id_bytes_of(id: PeerId) -> Seq<u8>;

/// Makes a fresh keypair with `libp2p::identity::Keypair::generate_ed25519`.
/// The key is drawn at random; what holds of every such key is that it is an
/// Ed25519 key, whose public key has 32 bytes.
#[verifier::external_body]
fn new_ed25519_keypair() -> (key: Keypair)
    ensures
        key_type_of(key) == KeyType::Ed25519,
        ed25519_public_bytes_of(key).len() == 32,
{
    Keypair::generate_ed25519()
}

/// The peer id of a keypair: `PeerId::from(key.public())`, which depends on
/// the key alone.
pub uninterp spec fn peer_id_of_key(key: Keypair) -> PeerId;

/// `PeerId::from(key.public())`: the peer id of the key. For an Ed25519 key
/// its protobuf encoding (36 bytes) is short enough to be inlined, so the
/// peer id is the identity multihash of that encoding.
#[verifier::external_body]
fn peer_id_of_keypair(key: &Keypair) -> (id: PeerId)
    ensures
        id == peer_id_of_key(*key),
        key_type_of(*key) == KeyType::Ed25519 ==> peer_id_bytes_of(id) == ed25519_peer_id_prefix()
            + ed25519_public_bytes_of(*key),
{
    PeerId::from(key.public())
}

/// A fresh identity for this node: a new Ed25519 keypair and the peer id of
/// its public key.
pub fn generate_identity() -> (r: (Keypair, PeerId))
    ensures
        key_type_of(r.0) == KeyType::Ed25519,
        r.1 == peer_id_of_key(r.0),
        ed25519_public_bytes_of(r.0).len() == 32,
        peer_id_bytes_of(r.1) == ed25519_peer_id_prefix() + ed25519_public_bytes_of(r.0),
        peer_id_bytes_of(r.1).len() == 38,
        peer_id_text_of(r.1).len() == 52,
        peer_id_text_of(r.1).take(8) == seq!['1', '2', 'D', '3', 'K', 'o', 'o', 'W'],
{
    let local_key = new_ed25519_keypair();
    let local_peer_id = peer_id_of_keypair(&local_key);
    proof {
        lemma_ed25519_peer_id_text(ed25519_public_bytes_of(local_key));
    }
    (local_key, local_peer_id)
}

/// The text of a peer id: the base-58 form of its bytes, as `PeerId`'s
/// `Display` writes it.
pub open spec fn peer_id_text_of(id: PeerId) -> Seq<char> {
    base58(peer_id_bytes_of(id))
}

/// `PeerId::to_string`: `bs58::encode(self.to_bytes())`, the base-58 text of
/// the peer id's bytes.
#[verifier::external_body]
pub(crate) fn peer_id_text(id: &PeerId) -> (r: String)
    ensures
        r@ == base58(peer_id_bytes_of(*id)),
{
    id.to_string()
}

/// `Multiaddr::clone`: the same address.
pub assume_specification[ <Multiaddr as Clone>::clone ](a: &Multiaddr) -> (r: Multiaddr)
    ensures
        r == *a,
;

/// The name of the one topic every node publishes to and reads from.
pub const GLOBAL_TOPIC_NAME: &'static str = "global-chat";

/// Seconds between two gossipsub heartbeats.
pub const HEARTBEAT_INTERVAL_SECS: u64 = 10;

/// Seconds after which an idle connection is closed.
pub const IDLE_CONNECTION_TIMEOUT_SECS: u64 = 60;

/// Whether `libp2p::PeerId::from_str` accepts the text: base-58 that decodes
/// to a multihash with a code that peer ids use.
pub uninterp spec fn is_peer_id_text(text: Seq<char>) -> bool;

/// The peer id `libp2p::PeerId::from_str` makes of a text it accepts.
pub uninterp spec fn parsed_peer_id(text: Seq<char>) -> PeerId;

/// `libp2p::PeerId::from_str`: a peer id exactly when the text is one, and
/// then the one the text names.
#[verifier::external_body]
pub(crate) fn parse_peer_id(text: &str) -> (r: Option<PeerId>)
    ensures
        r is Some <==> is_peer_id_text(text@),
        r matches Some(p) ==> p == parsed_peer_id(text@),
{
    text.parse::<PeerId>().ok()
}

/// Whether `libp2p::Multiaddr::from_str` accepts the text.
pub uninterp spec fn is_multiaddr_text(text: Seq<char>) -> bool;

/// The address `libp2p::Multiaddr::from_str` makes of a text it accepts.
pub uninterp spec fn parsed_multiaddr(text: Seq<char>) -> Multiaddr;

/// `libp2p::Multiaddr::from_str`: an address exactly when the text is one,
/// and then the one the text names.
#[verifier::external_body]
pub(crate) fn parse_multiaddr(text: &str) -> (r: Option<Multiaddr>)
    ensures
        r is Some <==> is_multiaddr_text(text@),
        r matches Some(a) ==> a == parsed_multiaddr(text@),
{
    text.parse::<Multiaddr>().ok()
}

/// The `data` field of a gossipsub message.
pub uninterp spec fn message_data_of(message: Message) -> Seq<u8>;

/// The `source` field of a gossipsub message.
pub uninterp spec fn message_source_of(message: Message) -> Option<PeerId>;

/// The `sequence_number` field of a gossipsub message.
pub uninterp spec fn message_sequence_number_of(message: Message) -> Option<u64>;

/// Reads `message.data`.
#[verifier::external_body]
fn message_data(message: &Message) -> (r: &Vec<u8>)
    ensures
        r@ == message_data_of(*message),
{
    &message.data
}

/// Reads `message.source`.
#[verifier::external_body]
fn message_source(message: &Message) -> (r: &Option<PeerId>)
    ensures
        *r == message_source_of(*message),
{
    &message.source
}

/// Reads `message.sequence_number`.
#[verifier::external_body]
fn message_sequence_number(message: &Message) -> (r: &Option<u64>)
    ensures
        *r == message_sequence_number_of(*message),
{
    &message.sequence_number
}

/// Whether `writes` are what `Hash::hash` of a byte vector with these
/// contents feeds a hasher. This is a relation and not a function: the length
/// prefix is a `usize` in the machine's own width and byte order.
pub uninterp spec fn hashed_bytes(writes: Seq<Seq<u8>>, data: Seq<u8>) -> bool;

/// Whether `writes` are what `Hash::hash` of an optional peer id feeds a
/// hasher (std's `Option` hash around libp2p's derived `Hash` of `PeerId`).
pub uninterp spec fn hashed_source(writes: Seq<Seq<u8>>, source: Option<PeerId>) -> bool;

/// Whether `writes` are what `Hash::hash` of an optional sequence number
/// feeds a hasher.
pub uninterp spec fn hashed_sequence_number(writes: Seq<Seq<u8>>, number: Option<u64>) -> bool;

/// `<Vec<u8> as Hash>::hash` into a `DefaultHasher`: the hasher is fed, after
/// what it had, the writes that hashing these bytes makes.
#[verifier::external_body]
fn hash_bytes(data: &Vec<u8>, state: &mut DefaultHasher)
    ensures
        final(state)@.len() >= old(state)@.len(),
        final(state)@.take(old(state)@.len() as int) == old(state)@,
        hashed_bytes(final(state)@.skip(old(state)@.len() as int), data@),
{
    data.hash(state)
}

/// `<Option<PeerId> as Hash>::hash` into a `DefaultHasher`: the hasher is
/// fed, after what it had, the writes that hashing this source makes.
#[verifier::external_body]
fn hash_source(source: &Option<PeerId>, state: &mut DefaultHasher)
    ensures
        final(state)@.len() >= old(state)@.len(),
        final(state)@.take(old(state)@.len() as int) == old(state)@,
        hashed_source(final(state)@.skip(old(state)@.len() as int), *source),
{
    source.hash(state)
}

/// `<Option<u64> as Hash>::hash` into a `DefaultHasher`: the hasher is fed,
/// after what it had, the writes that hashing this number makes.
#[verifier::external_body]
fn hash_sequence_number(number: &Option<u64>, state: &mut DefaultHasher)
    ensures
        final(state)@.len() >= old(state)@.len(),
        final(state)@.take(old(state)@.len() as int) == old(state)@,
        hashed_sequence_number(final(state)@.skip(old(state)@.len() as int), *number),
{
    number.hash(state)
}

/// Whether `d` is what a fresh `DefaultHasher` finishes with after being
/// fed, in this order, the data, the source and the sequence number of a
/// message.
pub open spec fn is_message_digest(d: u64, data: Seq<u8>, source: Option<PeerId>, number: Option<u64>) -> bool {
    exists|w1: Seq<Seq<u8>>, w2: Seq<Seq<u8>>, w3: Seq<Seq<u8>>|
        #![trigger hashed_bytes(w1, data), hashed_source(w2, source), hashed_sequence_number(w3, number)]
        hashed_bytes(w1, data) && hashed_source(w2, source) && hashed_sequence_number(w3, number)
            && d == DefaultHasher::spec_finish(w1 + w2 + w3)
}

/// The digest of a message: its data, source and sequence number, in that
/// order, through `Hash::hash` into one new `DefaultHasher`, then `finish`.
/// The topic does not enter it.
pub fn message_digest(message: &Message) -> (d: u64)
    ensures
        is_message_digest(
            d,
            message_data_of(*message),
            message_source_of(*message),
            message_sequence_number_of(*message),
        ),
{
    let mut s = DefaultHasher::new();
    let ghost s0 = s@;
    hash_bytes(message_data(message), &mut s);
    let ghost s1 = s@;
    hash_source(message_source(message), &mut s);
    let ghost s2 = s@;
    hash_sequence_number(message_sequence_number(message), &mut s);
    let d = s.finish();
    proof {
        let w1 = s1.skip(s0.len() as int);
        let w2 = s2.skip(s1.len() as int);
        let w3 = s@.skip(s2.len() as int);
        assert(s1 =~= s0 + w1);
        assert(s2 =~= s1 + w2);
        assert(s@ =~= s2 + w3);
        assert(s@ =~= w1 + w2 + w3);
    }
    d
}

/// The identifier of a message given its digest: the digest in decimal.
pub fn message_id_from_digest(digest: u64) -> (id: String)
    ensures
        id@ == decimal_numeral(digest as nat),
{
    decimal_string(digest)
}

/// The identifier gossipsub gives a message: the decimal numeral of the
/// digest of its data, source and sequence number.
pub fn message_id(message: &Message) -> (id: String)
    ensures
        exists|d: u64|
            #![trigger decimal_numeral(d as nat)]
            id@ == decimal_numeral(d as nat) && is_message_digest(
                d,
                message_data_of(*message),
                message_source_of(*message),
                message_sequence_number_of(*message),
            ),
{
    let d = message_digest(message);
    message_id_from_digest(d)
}

} // verus!
