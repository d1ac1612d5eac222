use chat_core::peer_table::PeerTable;
use chat_core::{
    generate_identity, ChatSession, KeyCode, KeyPress, NetworkEvent, StoredMessage, UiEffect,
};

fn press(code: KeyCode) -> KeyPress {
    KeyPress { code, pressed: true, control: false }
}

fn typed(s: &mut ChatSession, text: &str) {
    for c in text.chars() {
        assert_eq!(s.on_key(press(KeyCode::Char(c)), "00:00:00"), UiEffect::Nothing);
    }
}

fn row(ts: &str, sender: &str, content: &str) -> StoredMessage {
    StoredMessage { timestamp: ts.to_string(), sender: sender.to_string(), content: content.to_string() }
}

fn fresh() -> ChatSession {
    ChatSession::new("alice".to_string(), "12D3KooWself", &vec![])
}

#[test]
fn opening_lines_follow_history() {
    let s = ChatSession::new(
        "alice".to_string(),
        "12D3KooWself",
        &vec![row("08:00:00", "bob", "hi"), row("08:01:00", "alice", "hello")],
    );
    assert_eq!(
        s.messages(),
        &vec![
            "[08:00:00] bob: hi".to_string(),
            "[08:01:00] alice: hello".to_string(),
            "Starting decentralized chat node...".to_string(),
            "My unique Peer ID is: 12D3KooWself".to_string(),
            "Logged in as: alice".to_string(),
        ]
    );
    assert_eq!(s.input(), "");
    assert_eq!(s.username(), "alice");
    assert_eq!(s.selected_message(), Some(4));
    assert!(s.online_peers().is_empty());
}

#[test]
fn typing_and_sending_a_message() {
    let mut s = fresh();
    typed(&mut s, "  hello bob ");
    assert_eq!(s.input(), "  hello bob ");
    let e = s.on_key(press(KeyCode::Enter), "12:00:00");
    assert_eq!(e, UiEffect::Publish(row("12:00:00", "alice", "hello bob")));
    assert_eq!(s.input(), "");
    assert_eq!(s.messages().last().unwrap(), "[12:00:00] alice: hello bob");
    assert_eq!(s.selected_message(), Some(s.messages().len() - 1));
}

#[test]
fn blank_enter_does_nothing_but_clear() {
    let mut s = fresh();
    typed(&mut s, "   ");
    let before = s.messages().clone();
    assert_eq!(s.on_key(press(KeyCode::Enter), "12:00:00"), UiEffect::Nothing);
    assert_eq!(s.messages(), &before);
    assert_eq!(s.input(), "");
}

#[test]
fn dial_command() {
    let mut s = fresh();
    typed(&mut s, "/ip4/192.168.1.5/tcp/4001");
    let before = s.messages().clone();
    assert_eq!(
        s.on_key(press(KeyCode::Enter), "12:00:00"),
        UiEffect::Dial("/ip4/192.168.1.5/tcp/4001".to_string())
    );
    assert_eq!(s.messages(), &before);
}

#[test]
fn find_command_with_valid_and_invalid_ids() {
    let mut s = fresh();
    let (_, id) = generate_identity();
    typed(&mut s, &format!("/find {}", id));
    assert_eq!(s.on_key(press(KeyCode::Enter), "12:00:00"), UiEffect::FindPeer(id));
    typed(&mut s, "/find garbage");
    assert_eq!(s.on_key(press(KeyCode::Enter), "12:00:00"), UiEffect::Nothing);
    assert_eq!(s.messages().last().unwrap(), "Invalid Peer ID format.");
}

#[test]
fn backspace_undoes_typing() {
    let mut s = fresh();
    typed(&mut s, "ab");
    s.on_key(press(KeyCode::Char('\u{e9}')), "t");
    s.on_key(press(KeyCode::Backspace), "t");
    assert_eq!(s.input(), "ab");
    s.on_key(press(KeyCode::Backspace), "t");
    s.on_key(press(KeyCode::Backspace), "t");
    s.on_key(press(KeyCode::Backspace), "t");
    assert_eq!(s.input(), "");
}

#[test]
fn quitting_keys() {
    let mut s = fresh();
    typed(&mut s, "x");
    assert_eq!(s.on_key(press(KeyCode::Esc), "t"), UiEffect::Quit);
    let ctrl_c = KeyPress { code: KeyCode::Char('c'), pressed: true, control: true };
    assert_eq!(s.on_key(ctrl_c, "t"), UiEffect::Quit);
    assert_eq!(s.input(), "x");
    let ctrl_x = KeyPress { code: KeyCode::Char('x'), pressed: true, control: true };
    assert_eq!(s.on_key(ctrl_x, "t"), UiEffect::Nothing);
    assert_eq!(s.input(), "xx");
}

#[test]
fn releases_are_ignored() {
    let mut s = fresh();
    let release = KeyPress { code: KeyCode::Char('q'), pressed: false, control: false };
    assert_eq!(s.on_key(release, "t"), UiEffect::Nothing);
    let esc_release = KeyPress { code: KeyCode::Esc, pressed: false, control: false };
    assert_eq!(s.on_key(esc_release, "t"), UiEffect::Nothing);
    assert_eq!(s.input(), "");
    assert_eq!(s.on_key(press(KeyCode::Other), "t"), UiEffect::Nothing);
}

#[test]
fn system_notices_and_messages() {
    let mut s = fresh();
    assert_eq!(s.on_network_event(NetworkEvent::Log("Listening on x".to_string()), "t"), None);
    assert_eq!(s.messages().last().unwrap(), "[System] Listening on x");
    let stored = s.on_network_event(
        NetworkEvent::MessageReceived("bob".to_string(), "yo".to_string()),
        "13:00:00",
    );
    assert_eq!(stored, Some(row("13:00:00", "bob", "yo")));
    assert_eq!(s.messages().last().unwrap(), "[13:00:00] bob: yo");
}

#[test]
fn own_echo_is_not_shown_twice() {
    let mut s = fresh();
    let before = s.messages().clone();
    let stored = s.on_network_event(
        NetworkEvent::MessageReceived("alice".to_string(), "mine".to_string()),
        "13:00:00",
    );
    assert_eq!(stored, None);
    assert_eq!(s.messages(), &before);
}

#[test]
fn peers_come_and_go() {
    let mut s = fresh();
    s.on_network_event(NetworkEvent::PeerConnected("p2".to_string(), "zoe".to_string()), "t");
    s.on_network_event(NetworkEvent::PeerConnected("p1".to_string(), "Unknown (p1p1p1p1)".to_string()), "t");
    s.on_network_event(NetworkEvent::PeerConnected("p3".to_string(), "bob".to_string()), "t");
    assert_eq!(s.online_peers(), vec!["Unknown (p1p1p1p1)", "bob", "zoe"]);
    s.on_network_event(NetworkEvent::PeerConnected("p1".to_string(), "amy".to_string()), "t");
    assert_eq!(s.online_peers(), vec!["amy", "bob", "zoe"]);
    s.on_network_event(NetworkEvent::PeerDisconnected("p3".to_string()), "t");
    assert_eq!(s.online_peers(), vec!["amy", "zoe"]);
    s.on_network_event(NetworkEvent::PeerDisconnected("nobody".to_string()), "t");
    assert_eq!(s.online_peers(), vec!["amy", "zoe"]);
}

#[test]
fn duplicate_names_are_all_listed() {
    let mut s = fresh();
    s.on_network_event(NetworkEvent::PeerConnected("p1".to_string(), "sam".to_string()), "t");
    s.on_network_event(NetworkEvent::PeerConnected("p2".to_string(), "sam".to_string()), "t");
    assert_eq!(s.online_peers(), vec!["sam", "sam"]);
}

#[test]
fn peer_events_do_not_touch_history() {
    let mut s = fresh();
    let before = s.messages().clone();
    s.on_network_event(NetworkEvent::PeerConnected("p1".to_string(), "x".to_string()), "t");
    s.on_network_event(NetworkEvent::PeerDisconnected("p1".to_string()), "t");
    assert_eq!(s.messages(), &before);
    assert!(s.online_peers().is_empty());
}

#[test]
fn peer_table_directly() {
    let mut t = PeerTable::new();
    t.insert("b".to_string(), "Bea".to_string());
    t.insert("a".to_string(), "Al".to_string());
    t.insert("b".to_string(), "Ben".to_string());
    assert_eq!(t.sorted_names(), vec!["Al", "Ben"]);
    t.remove(&"a".to_string());
    assert_eq!(t.sorted_names(), vec!["Ben"]);
}

#[test]
fn selected_message_of_growing_history() {
    let mut s = fresh();
    let n = s.messages().len();
    s.on_network_event(NetworkEvent::Log("x".to_string()), "t");
    assert_eq!(s.selected_message(), Some(n));
}

#[test]
fn history_only_grows_at_the_end() {
    let mut s = fresh();
    let mut seen = s.messages().clone();
    let (_, id) = generate_identity();
    let steps: Vec<Box<dyn Fn(&mut ChatSession)>> = vec![
        Box::new(|s| typed(s, "hey")),
        Box::new(|s| {
            s.on_key(press(KeyCode::Enter), "01:02:03");
        }),
        Box::new(|s| {
            s.on_network_event(NetworkEvent::Log("note".to_string()), "t");
        }),
        Box::new(|s| typed(s, "/find nope")),
        Box::new(|s| {
            s.on_key(press(KeyCode::Enter), "t");
        }),
        Box::new(move |s| typed(s, &format!("/find {}", id))),
        Box::new(|s| {
            s.on_key(press(KeyCode::Enter), "t");
        }),
        Box::new(|s| {
            s.on_network_event(NetworkEvent::MessageReceived("zed".to_string(), "hi".to_string()), "t");
        }),
    ];
    for step in steps {
        step(&mut s);
        let now = s.messages().clone();
        assert!(now.len() >= seen.len() && now.len() <= seen.len() + 3);
        assert_eq!(&now[..seen.len()], &seen[..]);
        seen = now;
    }
    assert_eq!(
        &seen[seen.len() - 4..],
        &[
            "[01:02:03] alice: hey".to_string(),
            "[System] note".to_string(),
            "Invalid Peer ID format.".to_string(),
            "[t] zed: hi".to_string(),
        ]
    );
}
