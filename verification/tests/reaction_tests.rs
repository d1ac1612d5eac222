use chat_core::reaction::{
    on_chat_message, on_closed, on_closest_peers, on_connected, on_discovered, on_expired,
    on_find_peer, SwarmAction,
};
use chat_core::{generate_identity, ChatMessage, NetworkEvent};
use libp2p::{Multiaddr, PeerId};

fn peer() -> PeerId {
    generate_identity().1
}

fn addr(s: &str) -> Multiaddr {
    s.parse().unwrap()
}

fn placeholder(p: &PeerId) -> String {
    format!("Unknown ({})", &p.to_string()[..8])
}

#[test]
fn discovered_peers_join_gossip_and_the_table() {
    let (p1, p2) = (peer(), peer());
    let (a1, a2) = (addr("/ip4/10.0.0.1/tcp/1"), addr("/ip4/10.0.0.2/tcp/2"));
    let r = on_discovered(vec![(p1, a1.clone()), (p2, a2.clone())]).unwrap();
    assert_eq!(
        r.actions,
        vec![
            SwarmAction::AddExplicitPeer(p1),
            SwarmAction::AddAddress(p1, a1),
            SwarmAction::AddExplicitPeer(p2),
            SwarmAction::AddAddress(p2, a2),
        ]
    );
    assert_eq!(
        r.events,
        vec![
            NetworkEvent::PeerConnected(p1.to_string(), placeholder(&p1)),
            NetworkEvent::PeerConnected(p2.to_string(), placeholder(&p2)),
        ]
    );
}

#[test]
fn nothing_discovered() {
    let r = on_discovered(vec![]).unwrap();
    assert!(r.actions.is_empty() && r.events.is_empty());
}

#[test]
fn expired_peers_leave() {
    let p = peer();
    let r = on_expired(vec![(p, addr("/ip4/10.0.0.1/tcp/1"))]);
    assert_eq!(r.actions, vec![SwarmAction::RemoveExplicitPeer(p)]);
    assert_eq!(r.events, vec![NetworkEvent::PeerDisconnected(p.to_string())]);
}

#[test]
fn connections_we_dialled_record_the_address() {
    let p = peer();
    let a = addr("/ip4/192.168.0.9/tcp/4001");
    let dialled = on_connected(p, true, a.clone()).unwrap();
    assert_eq!(dialled.actions, vec![SwarmAction::AddExplicitPeer(p), SwarmAction::AddAddress(p, a.clone())]);
    assert_eq!(dialled.events, vec![NetworkEvent::PeerConnected(p.to_string(), placeholder(&p))]);
    let listened = on_connected(p, false, a).unwrap();
    assert_eq!(listened.actions, vec![SwarmAction::AddExplicitPeer(p)]);
}

#[test]
fn closed_connection() {
    let p = peer();
    let r = on_closed(p);
    assert_eq!(r.actions, vec![SwarmAction::RemoveExplicitPeer(p)]);
    assert_eq!(r.events, vec![NetworkEvent::PeerDisconnected(p.to_string())]);
}

#[test]
fn find_peer_starts_a_lookup() {
    let p = peer();
    let r = on_find_peer(p);
    assert_eq!(r.actions, vec![SwarmAction::FindClosestPeers(p)]);
    assert_eq!(r.events, vec![NetworkEvent::Log(format!("Searching DHT for {}...", p))]);
}

#[test]
fn closest_peers_are_recorded_and_dialled() {
    let (p1, p2) = (peer(), peer());
    let (a, b, c) = (addr("/ip4/1.1.1.1/tcp/1"), addr("/ip4/2.2.2.2/tcp/2"), addr("/ip4/3.3.3.3/tcp/3"));
    let r = on_closest_peers(vec![(p1, vec![a.clone(), b.clone()]), (p2, vec![]), (p2, vec![c.clone()])]);
    assert_eq!(
        r.actions,
        vec![
            SwarmAction::AddAddress(p1, a.clone()),
            SwarmAction::Dial(a),
            SwarmAction::AddAddress(p1, b.clone()),
            SwarmAction::Dial(b),
            SwarmAction::AddAddress(p2, c.clone()),
            SwarmAction::Dial(c),
        ]
    );
    assert_eq!(
        r.events,
        vec![
            NetworkEvent::Log(format!("DHT found peer nearby: {}", p1)),
            NetworkEvent::Log(format!("DHT found peer nearby: {}", p2)),
            NetworkEvent::Log(format!("DHT found peer nearby: {}", p2)),
        ]
    );
}

#[test]
fn chat_message_names_its_source() {
    let p = peer();
    let r = on_chat_message(p, ChatMessage { sender: "dave".to_string(), content: "yo".to_string() });
    assert!(r.actions.is_empty());
    assert_eq!(
        r.events,
        vec![
            NetworkEvent::MessageReceived("dave".to_string(), "yo".to_string()),
            NetworkEvent::PeerConnected(p.to_string(), "dave".to_string()),
        ]
    );
}
