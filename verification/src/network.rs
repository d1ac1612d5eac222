//! The network task's side of the chat: the commands it takes from the
//! interface, and the events it reports back for what happens on the swarm.

use vstd::prelude::*;
use vstd::string::StringExecFns;
use vstd::utf8::{decode_utf8, encode_utf8, encode_utf8_decode_utf8, is_char_boundary};
use libp2p::{Multiaddr, PeerId};
use crate::p2p::{is_multiaddr_text, parse_multiaddr, parsed_multiaddr};
use crate::message::ChatMessage;

verus! {

/// What the interface asks the network task to do.
#[derive(Debug, PartialEq, Eq)]
pub enum NetworkCommand {
    /// Publish a chat line on the chat topic.
    Publish(String),
    /// Dial a multiaddress.
    Dial(String),
    /// Ask the DHT for the peers closest to this one.
    FindPeer(PeerId),
}

/// What the network task reports to the interface.
#[derive(Clone, Debug, PartialEq, Eq)]
pub enum NetworkEvent {
    /// A notice for the chat window.
    Log(String),
    /// A peer (by id text) is reachable and is shown under a name.
    PeerConnected(String, String),
    /// A peer (by id text) is gone.
    PeerDisconnected(String),
    /// A chat message: sender, then content.
    MessageReceived(String, String),
}

/// `NetworkEvent` as plain text.
pub enum NetworkEventView {
    Log(Seq<char>),
    PeerConnected(Seq<char>, Seq<char>),
    PeerDisconnected(Seq<char>),
    MessageReceived(Seq<char>, Seq<char>),
}

impl View for NetworkEvent {
    type V = NetworkEventView;

    open spec fn view(&self) -> NetworkEventView {
        match self {
            NetworkEvent::Log(s) => NetworkEventView::Log(s@),
            NetworkEvent::PeerConnected(p, n) => NetworkEventView::PeerConnected(p@, n@),
            NetworkEvent::PeerDisconnected(p) => NetworkEventView::PeerDisconnected(p@),
            NetworkEvent::MessageReceived(s, c) => NetworkEventView::MessageReceived(s@, c@),
        }
    }
}

/// The views of a list of events.
pub open spec fn event_views(v: Seq<NetworkEvent>) -> Seq<NetworkEventView> {
    v.map_values(|e: NetworkEvent| e@)
}

/// The name a peer is shown under until it says who it is: `Unknown (`,
/// the text of the first eight bytes of its id, then `)`.
pub open spec fn placeholder_name(peer_id: Seq<char>) -> Seq<char> {
    "Unknown ("@ + decode_utf8(encode_utf8(peer_id).subrange(0, 8)) + ")"@
}

/// Whether the text of a peer id has at least eight bytes and its first
/// eight bytes end on a character boundary, so that they can be shown on
/// their own (a boundary beyond the end does not count). Every base-58 peer
/// id qualifies: it is ASCII and longer than eight characters.
pub open spec fn is_peer_id_shape(peer_id: Seq<char>) -> bool {
    is_char_boundary(encode_utf8(peer_id), 8)
}

/// Builds the placeholder name of a peer.
pub fn unknown_peer_name(peer_id: &str) -> (r: String)
    requires
        is_peer_id_shape(peer_id@),
    ensures
        r@ == placeholder_name(peer_id@),
{
    let (head, _) = peer_id.split_at(8);
    proof {
        encode_utf8_decode_utf8(head@);
    }
    let mut s = "Unknown (".to_owned();
    s.append(head);
    s.append(")");
    s
}

/// Whether a peer id text can be shown under a placeholder name.
pub fn has_peer_id_shape(peer_id: &str) -> (r: bool)
    ensures
        r == is_peer_id_shape(peer_id@),
{
    peer_id.is_char_boundary(8)
}

/// The event for a peer that became reachable: it is shown under its
/// placeholder name.
pub fn peer_reachable(peer_id: String) -> (e: NetworkEvent)
    requires
        is_peer_id_shape(peer_id@),
    ensures
        e@ == NetworkEventView::PeerConnected(peer_id@, placeholder_name(peer_id@)),
{
    let name = unknown_peer_name(peer_id.as_str());
    NetworkEvent::PeerConnected(peer_id, name)
}

/// The payload published for a line typed by `username`.
pub fn outgoing_message(username: &String, line: String) -> (m: ChatMessage)
    ensures
        m.sender@ == username@,
        m.content@ == line@,
{
    ChatMessage { sender: username.clone(), content: line }
}

/// Text followed by more text, as one string.
fn joined(a: &str, b: &str) -> (r: String)
    ensures
        r@ == a@ + b@,
{
    let mut s = a.to_owned();
    s.append(b);
    s
}

/// `Listening on <address>`.
pub fn listening_notice(address: &str) -> (e: NetworkEvent)
    ensures
        e@ == NetworkEventView::Log("Listening on "@ + address@),
{
    NetworkEvent::Log(joined("Listening on ", address))
}

/// What publishing a line came to: on success the line shows as the user's
/// own message; on failure a notice carries the error's description.
pub fn publish_outcome(username: &String, line: String, error: Option<String>) -> (e: NetworkEvent)
    ensures
        match error {
            None => e@ == NetworkEventView::MessageReceived(username@, line@),
            Some(d) => e@ == NetworkEventView::Log("Publish error: "@ + d@),
        },
{
    match error {
        None => NetworkEvent::MessageReceived(username.clone(), line),
        Some(d) => NetworkEvent::Log(joined("Publish error: ", d.as_str())),
    }
}

/// The address a dial command names, when the text is a multiaddress;
/// a command whose text is not one is dropped.
pub fn dial_target(address: &str) -> (r: Option<Multiaddr>)
    ensures
        r is Some <==> is_multiaddr_text(address@),
        r matches Some(a) ==> a == parsed_multiaddr(address@),
{
    parse_multiaddr(address)
}

/// What dialling an address came to: `Dialing <address>...`, or a notice
/// with the error's description.
pub fn dial_outcome(address: &str, error: Option<String>) -> (e: NetworkEvent)
    ensures
        match error {
            None => e@ == NetworkEventView::Log("Dialing "@ + address@ + "..."@),
            Some(d) => e@ == NetworkEventView::Log("Dial error: "@ + d@),
        },
{
    match error {
        None => {
            let mut s = joined("Dialing ", address);
            s.append("...");
            NetworkEvent::Log(s)
        },
        Some(d) => NetworkEvent::Log(joined("Dial error: ", d.as_str())),
    }
}

} // verus!
