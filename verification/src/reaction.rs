//! How the network task reacts to what the swarm reports: which peers it
//! adds to or drops from gossip, which addresses it records and dials, and
//! which events it passes on to the interface.

use vstd::prelude::*;
use vstd::string::StringExecFns;
use libp2p::{Multiaddr, PeerId};
use crate::message::ChatMessage;
use crate::network::{
    has_peer_id_shape, is_peer_id_shape, peer_reachable, placeholder_name, NetworkEvent,
    NetworkEventView,
};
use crate::p2p::{peer_id_text, peer_id_text_of};

verus! {

/// Work the network task does on the swarm.
#[derive(Debug, PartialEq, Eq)]
pub enum SwarmAction {
    /// Add the peer to gossip's explicit peers.
    AddExplicitPeer(PeerId),
    /// Drop the peer from gossip's explicit peers.
    RemoveExplicitPeer(PeerId),
    /// Record an address of the peer in the Kademlia table.
    AddAddress(PeerId, Multiaddr),
    /// Dial the address.
    Dial(Multiaddr),
    /// Ask the DHT for the peers closest to this one.
    FindClosestPeers(PeerId),
}

/// What the network task does about one report: swarm work, in order, and
/// events for the interface, in order.
#[derive(Debug, PartialEq, Eq)]
pub struct Reaction {
    pub actions: Vec<SwarmAction>,
    pub events: Vec<NetworkEvent>,
}

/// The event views of a reaction.
pub open spec fn reaction_events(r: Reaction) -> Seq<NetworkEventView> {
    r.events@.map_values(|e: NetworkEvent| e@)
}

/// The event for a peer that became reachable, named by its placeholder.
pub open spec fn reachable_event(p: PeerId) -> NetworkEventView {
    NetworkEventView::PeerConnected(peer_id_text_of(p), placeholder_name(peer_id_text_of(p)))
}

/// Whether every peer in a list has an id text that a placeholder can show.
pub open spec fn all_shaped(found: Seq<(PeerId, Multiaddr)>) -> bool {
    forall|i: int| 0 <= i < found.len() ==> is_peer_id_shape(peer_id_text_of(#[trigger] found[i].0))
}

/// Swarm work for peers found by mDNS: each is added to gossip, then its
/// address is recorded.
pub open spec fn discovered_actions(found: Seq<(PeerId, Multiaddr)>) -> Seq<SwarmAction>
    decreases found.len(),
{
    if found.len() == 0 {
        Seq::empty()
    } else {
        discovered_actions(found.drop_last()) + seq![
            SwarmAction::AddExplicitPeer(found.last().0),
            SwarmAction::AddAddress(found.last().0, found.last().1),
        ]
    }
}

/// Swarm work for peers whose mDNS record expired: each leaves gossip.
pub open spec fn expired_actions(gone: Seq<(PeerId, Multiaddr)>) -> Seq<SwarmAction> {
    gone.map_values(|g: (PeerId, Multiaddr)| SwarmAction::RemoveExplicitPeer(g.0))
}

/// Swarm work for peers a DHT lookup returned: each address is recorded,
/// then dialled.
pub open spec fn closest_actions(found: Seq<(PeerId, Seq<Multiaddr>)>) -> Seq<SwarmAction>
    decreases found.len(),
{
    if found.len() == 0 {
        Seq::empty()
    } else {
        closest_actions(found.drop_last()) + record_and_dial(found.last().0, found.last().1)
    }
}

/// Recording and dialling each address of one peer.
pub open spec fn record_and_dial(p: PeerId, addrs: Seq<Multiaddr>) -> Seq<SwarmAction>
    decreases addrs.len(),
{
    if addrs.len() == 0 {
        Seq::empty()
    } else {
        record_and_dial(p, addrs.drop_last()) + seq![
            SwarmAction::AddAddress(p, addrs.last()),
            SwarmAction::Dial(addrs.last()),
        ]
    }
}

/// Each peer found by mDNS, in order and whatever its neighbours, is added to
/// gossip and then has its address recorded: two actions per entry, the pair
/// for the i-th entry at positions 2i and 2i + 1.
pub proof fn law_discovered_actions(found: Seq<(PeerId, Multiaddr)>)
    ensures
        discovered_actions(found).len() == 2 * found.len(),
        forall|i: int|
            0 <= i < found.len() ==> discovered_actions(found)[2 * i] == SwarmAction::AddExplicitPeer(
                (#[trigger] found[i]).0,
            ) && discovered_actions(found)[2 * i + 1] == SwarmAction::AddAddress(found[i].0, found[i].1),
    decreases found.len(),
{
    if found.len() > 0 {
        let prev = found.drop_last();
        law_discovered_actions(prev);
        assert forall|i: int| 0 <= i < found.len() implies discovered_actions(found)[2 * i]
            == SwarmAction::AddExplicitPeer((#[trigger] found[i]).0) && discovered_actions(found)[2 * i + 1]
            == SwarmAction::AddAddress(found[i].0, found[i].1) by {
            if i < found.len() - 1 {
                assert(found[i] == prev[i]);
            }
        }
    }
}

/// Every peer whose mDNS record expired leaves gossip: one action per entry,
/// the i-th dropping the i-th entry's peer.
pub proof fn law_expired_actions(gone: Seq<(PeerId, Multiaddr)>)
    ensures
        expired_actions(gone).len() == gone.len(),
        forall|i: int|
            0 <= i < gone.len() ==> #[trigger] expired_actions(gone)[i] == SwarmAction::RemoveExplicitPeer(
                gone[i].0,
            ),
{
}

/// Each address of a peer, in order, is recorded and then dialled: two
/// actions per address, the pair for the i-th at positions 2i and 2i + 1.
pub proof fn law_record_and_dial(p: PeerId, addrs: Seq<Multiaddr>)
    ensures
        record_and_dial(p, addrs).len() == 2 * addrs.len(),
        forall|i: int|
            0 <= i < addrs.len() ==> record_and_dial(p, addrs)[2 * i] == SwarmAction::AddAddress(
                p,
                #[trigger] addrs[i],
            ) && record_and_dial(p, addrs)[2 * i + 1] == SwarmAction::Dial(addrs[i]),
    decreases addrs.len(),
{
    if addrs.len() > 0 {
        let prev = addrs.drop_last();
        law_record_and_dial(p, prev);
        assert forall|i: int| 0 <= i < addrs.len() implies record_and_dial(p, addrs)[2 * i]
            == SwarmAction::AddAddress(p, #[trigger] addrs[i]) && record_and_dial(p, addrs)[2 * i + 1]
            == SwarmAction::Dial(addrs[i]) by {
            if i < addrs.len() - 1 {
                assert(addrs[i] == prev[i]);
            }
        }
    }
}

/// The work for a DHT answer is the work for each of its peers in turn: for
/// one peer, each of its addresses recorded and dialled; for two parts of an
/// answer, the work for the first part followed by that for the second.
pub proof fn law_closest_actions(
    a: Seq<(PeerId, Seq<Multiaddr>)>,
    b: Seq<(PeerId, Seq<Multiaddr>)>,
    p: PeerId,
    addrs: Seq<Multiaddr>,
)
    ensures
        closest_actions(seq![(p, addrs)]) == record_and_dial(p, addrs),
        closest_actions(a + b) == closest_actions(a) + closest_actions(b),
    decreases b.len(),
{
    let one = seq![(p, addrs)];
    assert(one.drop_last() =~= Seq::<(PeerId, Seq<Multiaddr>)>::empty());
    assert(one.last() == (p, addrs));
    assert(closest_actions(one.drop_last()) == Seq::<SwarmAction>::empty());
    assert(closest_actions(one) == closest_actions(one.drop_last()) + record_and_dial(p, addrs));
    assert(Seq::<SwarmAction>::empty() + record_and_dial(p, addrs) =~= record_and_dial(p, addrs));
    if b.len() == 0 {
        assert(a + b =~= a);
        assert(closest_actions(a) + closest_actions(b) =~= closest_actions(a));
    } else {
        law_closest_actions(a, b.drop_last(), p, addrs);
        assert((a + b).drop_last() =~= a + b.drop_last());
        assert((a + b).last() == b.last());
        assert(closest_actions(a + b) =~= closest_actions(a) + closest_actions(b));
    }
}

/// The reaction to peers found by mDNS, or none when the id text of one of
/// them is too short for a placeholder name (where the node cannot go on).
pub fn on_discovered(found: Vec<(PeerId, Multiaddr)>) -> (r: Option<Reaction>)
    ensures
        r is Some <==> all_shaped(found@),
        r matches Some(re) ==> re.actions@ == discovered_actions(found@) && reaction_events(re)
            == found@.map_values(|f: (PeerId, Multiaddr)| reachable_event(f.0)),
        r matches Some(re) ==> re.actions@.len() == 2 * found@.len() && forall|i: int|
            0 <= i < found@.len() ==> re.actions@[2 * i] == SwarmAction::AddExplicitPeer(
                (#[trigger] found@[i]).0,
            ) && re.actions@[2 * i + 1] == SwarmAction::AddAddress(found@[i].0, found@[i].1),
{
    let mut actions: Vec<SwarmAction> = Vec::new();
    let mut events: Vec<NetworkEvent> = Vec::new();
    let n = found.len();
    for i in 0..n
        invariant
            n == found@.len(),
            forall|j: int| 0 <= j < i ==> is_peer_id_shape(peer_id_text_of(#[trigger] found@[j].0)),
            actions@ == discovered_actions(found@.take(i as int)),
            events@.len() == i,
            forall|j: int| 0 <= j < i ==> (#[trigger] events@[j])@ == reachable_event(found@[j].0),
    {
        let p = found[i].0;
        let text = peer_id_text(&p);
        if !has_peer_id_shape(text.as_str()) {
            return None;
        }
        actions.push(SwarmAction::AddExplicitPeer(p));
        actions.push(SwarmAction::AddAddress(p, found[i].1.clone()));
        events.push(peer_reachable(text));
        proof {
            assert(found@.take(i + 1).drop_last() =~= found@.take(i as int));
            assert(actions@ =~= discovered_actions(found@.take(i + 1)));
        }
    }
    assert(found@.take(n as int) =~= found@);
    proof { law_discovered_actions(found@); }
    let r = Reaction { actions, events };
    assert(reaction_events(r) =~= found@.map_values(|f: (PeerId, Multiaddr)| reachable_event(f.0)));
    Some(r)
}

/// The reaction to peers whose mDNS record expired: each leaves gossip and
/// is reported gone.
pub fn on_expired(gone: Vec<(PeerId, Multiaddr)>) -> (r: Reaction)
    ensures
        r.actions@ == expired_actions(gone@),
        r.actions@.len() == gone@.len(),
        forall|i: int|
            0 <= i < gone@.len() ==> #[trigger] r.actions@[i] == SwarmAction::RemoveExplicitPeer(gone@[i].0),
        reaction_events(r) == gone@.map_values(
            |g: (PeerId, Multiaddr)| NetworkEventView::PeerDisconnected(peer_id_text_of(g.0)),
        ),
{
    let mut actions: Vec<SwarmAction> = Vec::new();
    let mut events: Vec<NetworkEvent> = Vec::new();
    let n = gone.len();
    for i in 0..n
        invariant
            n == gone@.len(),
            actions@.len() == i,
            events@.len() == i,
            forall|j: int| 0 <= j < i ==> #[trigger] actions@[j] == SwarmAction::RemoveExplicitPeer(gone@[j].0),
            forall|j: int|
                0 <= j < i ==> (#[trigger] events@[j])@ == NetworkEventView::PeerDisconnected(
                    peer_id_text_of(gone@[j].0),
                ),
    {
        let p = gone[i].0;
        actions.push(SwarmAction::RemoveExplicitPeer(p));
        events.push(NetworkEvent::PeerDisconnected(peer_id_text(&p)));
    }
    let r = Reaction { actions, events };
    assert(r.actions@ =~= expired_actions(gone@));
    assert(reaction_events(r) =~= gone@.map_values(
        |g: (PeerId, Multiaddr)| NetworkEventView::PeerDisconnected(peer_id_text_of(g.0)),
    ));
    r
}

/// The reaction to a new connection: the peer joins gossip, its address is
/// recorded when this node dialled it, and it is reported reachable; none
/// when its id text is too short for a placeholder name.
pub fn on_connected(peer: PeerId, dialer: bool, remote: Multiaddr) -> (r: Option<Reaction>)
    ensures
        r is Some <==> is_peer_id_shape(peer_id_text_of(peer)),
        r matches Some(re) ==> re.actions@ == (if dialer {
            seq![SwarmAction::AddExplicitPeer(peer), SwarmAction::AddAddress(peer, remote)]
        } else {
            seq![SwarmAction::AddExplicitPeer(peer)]
        }) && reaction_events(re) == seq![reachable_event(peer)],
{
    let text = peer_id_text(&peer);
    if !has_peer_id_shape(text.as_str()) {
        return None;
    }
    let mut actions: Vec<SwarmAction> = Vec::new();
    actions.push(SwarmAction::AddExplicitPeer(peer));
    if dialer {
        actions.push(SwarmAction::AddAddress(peer, remote));
    }
    let mut events: Vec<NetworkEvent> = Vec::new();
    events.push(peer_reachable(text));
    let r = Reaction { actions, events };
    assert(reaction_events(r) =~= seq![reachable_event(peer)]);
    if dialer {
        assert(r.actions@ =~= seq![SwarmAction::AddExplicitPeer(peer), SwarmAction::AddAddress(peer, remote)]);
    } else {
        assert(r.actions@ =~= seq![SwarmAction::AddExplicitPeer(peer)]);
    }
    Some(r)
}

/// The reaction to a closed connection: the peer leaves gossip and is
/// reported gone.
pub fn on_closed(peer: PeerId) -> (r: Reaction)
    ensures
        r.actions@ == seq![SwarmAction::RemoveExplicitPeer(peer)],
        reaction_events(r) == seq![NetworkEventView::PeerDisconnected(peer_id_text_of(peer))],
{
    let mut actions: Vec<SwarmAction> = Vec::new();
    actions.push(SwarmAction::RemoveExplicitPeer(peer));
    let mut events: Vec<NetworkEvent> = Vec::new();
    events.push(NetworkEvent::PeerDisconnected(peer_id_text(&peer)));
    let r = Reaction { actions, events };
    assert(r.actions@ =~= seq![SwarmAction::RemoveExplicitPeer(peer)]);
    assert(reaction_events(r) =~= seq![NetworkEventView::PeerDisconnected(peer_id_text_of(peer))]);
    r
}

/// The reaction to a `/find` request: a notice that the lookup started, and
/// the lookup itself.
pub fn on_find_peer(peer: PeerId) -> (r: Reaction)
    ensures
        r.actions@ == seq![SwarmAction::FindClosestPeers(peer)],
        reaction_events(r) == seq![
            NetworkEventView::Log("Searching DHT for "@ + peer_id_text_of(peer) + "..."@),
        ],
{
    let mut actions: Vec<SwarmAction> = Vec::new();
    actions.push(SwarmAction::FindClosestPeers(peer));
    let mut text = "Searching DHT for ".to_owned();
    let id = peer_id_text(&peer);
    text.append(id.as_str());
    text.append("...");
    let mut events: Vec<NetworkEvent> = Vec::new();
    events.push(NetworkEvent::Log(text));
    let r = Reaction { actions, events };
    assert(r.actions@ =~= seq![SwarmAction::FindClosestPeers(peer)]);
    assert(reaction_events(r) =~= seq![
        NetworkEventView::Log("Searching DHT for "@ + peer_id_text_of(peer) + "..."@),
    ]);
    r
}

/// Recording and dialling each address of one peer, in order.
fn push_record_and_dial(actions: &mut Vec<SwarmAction>, peer: PeerId, addrs: &Vec<Multiaddr>)
    ensures
        final(actions)@ == old(actions)@ + record_and_dial(peer, addrs@),
{
    let n = addrs.len();
    let ghost start = actions@;
    assert(addrs@.take(0) =~= Seq::<Multiaddr>::empty());
    assert(start + record_and_dial(peer, addrs@.take(0)) =~= start);
    for i in 0..n
        invariant
            n == addrs@.len(),
            actions@ == start + record_and_dial(peer, addrs@.take(i as int)),
    {
        actions.push(SwarmAction::AddAddress(peer, addrs[i].clone()));
        actions.push(SwarmAction::Dial(addrs[i].clone()));
        assert(addrs@.take(i + 1).drop_last() =~= addrs@.take(i as int));
        assert(actions@ =~= start + record_and_dial(peer, addrs@.take(i + 1)));
    }
    assert(addrs@.take(n as int) =~= addrs@);
}

/// The peers and addresses of a DHT answer as plain values.
pub open spec fn closest_views(found: Seq<(PeerId, Vec<Multiaddr>)>) -> Seq<(PeerId, Seq<Multiaddr>)> {
    found.map_values(|f: (PeerId, Vec<Multiaddr>)| (f.0, f.1@))
}

/// The reaction to the peers a DHT lookup returned: a notice for each, and
/// each of its addresses recorded and dialled.
pub fn on_closest_peers(found: Vec<(PeerId, Vec<Multiaddr>)>) -> (r: Reaction)
    ensures
        r.actions@ == closest_actions(closest_views(found@)),
        reaction_events(r) == found@.map_values(
            |f: (PeerId, Vec<Multiaddr>)| NetworkEventView::Log("DHT found peer nearby: "@ + peer_id_text_of(f.0)),
        ),
{
    let mut actions: Vec<SwarmAction> = Vec::new();
    let mut events: Vec<NetworkEvent> = Vec::new();
    let n = found.len();
    for i in 0..n
        invariant
            n == found@.len(),
            actions@ == closest_actions(closest_views(found@.take(i as int))),
            events@.len() == i,
            forall|j: int|
                0 <= j < i ==> (#[trigger] events@[j])@ == NetworkEventView::Log(
                    "DHT found peer nearby: "@ + peer_id_text_of(found@[j].0),
                ),
    {
        let p = found[i].0;
        let mut text = "DHT found peer nearby: ".to_owned();
        let id = peer_id_text(&p);
        text.append(id.as_str());
        events.push(NetworkEvent::Log(text));
        push_record_and_dial(&mut actions, p, &found[i].1);
        proof {
            assert(closest_views(found@.take(i + 1)).drop_last() =~= closest_views(found@.take(i as int)));
            assert(closest_views(found@.take(i + 1)).last() == (p, found@[i as int].1@));
        }
    }
    assert(found@.take(n as int) =~= found@);
    let r = Reaction { actions, events };
    assert(reaction_events(r) =~= found@.map_values(
        |f: (PeerId, Vec<Multiaddr>)| NetworkEventView::Log("DHT found peer nearby: "@ + peer_id_text_of(f.0)),
    ));
    r
}

/// The events for a chat message that arrived from peer `source`: the
/// message itself, then the news that `source` goes by the sender's name.
pub fn on_chat_message(source: PeerId, message: ChatMessage) -> (r: Reaction)
    ensures
        r.actions@.len() == 0,
        reaction_events(r) == seq![
            NetworkEventView::MessageReceived(message.sender@, message.content@),
            NetworkEventView::PeerConnected(peer_id_text_of(source), message.sender@),
        ],
{
    let name = message.sender.clone();
    let mut events: Vec<NetworkEvent> = Vec::new();
    events.push(NetworkEvent::MessageReceived(message.sender, message.content));
    events.push(NetworkEvent::PeerConnected(peer_id_text(&source), name));
    let r = Reaction { actions: Vec::new(), events };
    assert(reaction_events(r) =~= seq![
        NetworkEventView::MessageReceived(message.sender@, message.content@),
        NetworkEventView::PeerConnected(peer_id_text_of(source), message.sender@),
    ]);
    r
}

} // verus!
