//! The chat window's state and how it moves: keystrokes edit the input line
//! and, on Enter, turn it into a command or a chat line; events from the
//! network task add notices and messages and keep the peer table current.

use vstd::prelude::*;
use libp2p::PeerId;
use crate::command::{dial_prefix, find_prefix, interpret_line, line_kind, LineCommand, LineKindView};
use crate::message::{
    chat_line, format_chat_line, format_system_line, history_line, system_line, StoredMessage,
};
use crate::network::{NetworkEvent, NetworkEventView};
use crate::p2p::{is_peer_id_text, parsed_peer_id};
use crate::peer_table::{lex_sorted, texts, PeerTable};
use crate::text::{pop_char, push_char, trimmed};
use vstd::string::StringExecFns;

verus! {

/// The key of a keyboard event.
#[derive(Clone, Copy, Debug, PartialEq, Eq)]
pub enum KeyCode {
    Char(char),
    Enter,
    Backspace,
    Esc,
    Other,
}

/// A keyboard event: its key, whether it is a press (rather than a release
/// or repeat), and whether Control was held.
#[derive(Clone, Copy, Debug, PartialEq, Eq)]
pub struct KeyPress {
    pub code: KeyCode,
    pub pressed: bool,
    pub control: bool,
}

/// What the interface loop must do after a keystroke.
#[derive(Debug, PartialEq, Eq)]
pub enum UiEffect {
    /// Nothing beyond redrawing.
    Nothing,
    /// Leave the chat.
    Quit,
    /// Have the network task dial this address.
    Dial(String),
    /// Have the network task look this peer up.
    FindPeer(PeerId),
    /// Have the network task publish the row's content, and store the row.
    Publish(StoredMessage),
}

/// `UiEffect` as plain text, with the peer to look up as it is.
pub enum UiEffectView {
    Nothing,
    Quit,
    Dial(Seq<char>),
    FindPeer(PeerId),
    Publish(Seq<char>, Seq<char>, Seq<char>),
}

impl View for UiEffect {
    type V = UiEffectView;

    open spec fn view(&self) -> UiEffectView {
        match self {
            UiEffect::Nothing => UiEffectView::Nothing,
            UiEffect::Quit => UiEffectView::Quit,
            UiEffect::Dial(a) => UiEffectView::Dial(a@),
            UiEffect::FindPeer(p) => UiEffectView::FindPeer(*p),
            UiEffect::Publish(r) => UiEffectView::Publish(r.timestamp@, r.sender@, r.content@),
        }
    }
}

/// The chat window as plain values.
pub struct SessionView {
    pub username: Seq<char>,
    pub messages: Seq<Seq<char>>,
    pub input: Seq<char>,
    pub peers: Map<Seq<char>, Seq<char>>,
}

/// The notice shown for a `/find` whose peer id does not parse.
pub open spec fn invalid_peer_notice() -> Seq<char> {
    "Invalid Peer ID format."@
}

/// Whether a keystroke ends the session: Escape, or Control-C.
pub open spec fn key_quits(key: KeyPress) -> bool {
    key.pressed && match key.code {
        KeyCode::Esc => true,
        KeyCode::Char(c) => key.control && c == 'c',
        _ => false,
    }
}

/// The window after a keystroke, `now` being the time shown for a message
/// sent by it.
pub open spec fn apply_key(s: SessionView, key: KeyPress, now: Seq<char>) -> SessionView {
    if !key.pressed || key_quits(key) {
        s
    } else {
        match key.code {
            KeyCode::Char(c) => SessionView { input: s.input.push(c), ..s },
            KeyCode::Backspace => SessionView {
                input: if s.input.len() > 0 { s.input.drop_last() } else { s.input },
                ..s
            },
            KeyCode::Enter => {
                let cleared = SessionView { input: Seq::empty(), ..s };
                match line_kind(s.input) {
                    LineKindView::FindPeer(p) => if is_peer_id_text(p) {
                        cleared
                    } else {
                        SessionView { messages: s.messages.push(invalid_peer_notice()), ..cleared }
                    },
                    LineKindView::Publish(m) => SessionView {
                        messages: s.messages.push(chat_line(now, s.username, m)),
                        ..cleared
                    },
                    _ => cleared,
                }
            },
            _ => s,
        }
    }
}

/// What the interface loop must do after a keystroke.
pub open spec fn key_effect(s: SessionView, key: KeyPress, now: Seq<char>) -> UiEffectView {
    if !key.pressed {
        UiEffectView::Nothing
    } else if key_quits(key) {
        UiEffectView::Quit
    } else {
        match key.code {
            KeyCode::Enter => match line_kind(s.input) {
                LineKindView::Blank => UiEffectView::Nothing,
                LineKindView::Dial(a) => UiEffectView::Dial(a),
                LineKindView::FindPeer(p) => if is_peer_id_text(p) {
                    UiEffectView::FindPeer(parsed_peer_id(p))
                } else {
                    UiEffectView::Nothing
                },
                LineKindView::Publish(m) => UiEffectView::Publish(now, s.username, m),
            },
            _ => UiEffectView::Nothing,
        }
    }
}

/// The window after an event from the network task, `now` being the time
/// shown for a message it brings.
pub open spec fn apply_event(s: SessionView, e: NetworkEventView, now: Seq<char>) -> SessionView {
    match e {
        NetworkEventView::Log(t) => SessionView { messages: s.messages.push(system_line(t)), ..s },
        NetworkEventView::MessageReceived(sender, content) => if sender != s.username {
            SessionView { messages: s.messages.push(chat_line(now, sender, content)), ..s }
        } else {
            s
        },
        NetworkEventView::PeerConnected(id, name) => SessionView { peers: s.peers.insert(id, name), ..s },
        NetworkEventView::PeerDisconnected(id) => SessionView { peers: s.peers.remove(id), ..s },
    }
}

/// A keystroke never removes or changes a line of the chat window; it adds
/// at most one, at the end.
pub proof fn law_keys_keep_history(s: SessionView, key: KeyPress, now: Seq<char>)
    ensures
        s.messages.is_prefix_of(apply_key(s, key, now).messages),
        apply_key(s, key, now).messages.len() <= s.messages.len() + 1,
{
    let t = apply_key(s, key, now);
    assert(t.messages.subrange(0, s.messages.len() as int) =~= s.messages);
}

/// An event from the network never removes or changes a line of the chat
/// window; it adds at most one, at the end.
pub proof fn law_events_keep_history(s: SessionView, e: NetworkEventView, now: Seq<char>)
    ensures
        s.messages.is_prefix_of(apply_event(s, e, now).messages),
        apply_event(s, e, now).messages.len() <= s.messages.len() + 1,
{
    let t = apply_event(s, e, now);
    assert(t.messages.subrange(0, s.messages.len() as int) =~= s.messages);
}

/// Keystrokes leave the user's name and the peer table alone; network events
/// leave the user's name and the input line alone.
pub proof fn law_keys_and_events_touch_their_own_parts(
    s: SessionView,
    key: KeyPress,
    e: NetworkEventView,
    now: Seq<char>,
)
    ensures
        apply_key(s, key, now).username == s.username,
        apply_key(s, key, now).peers == s.peers,
        apply_event(s, e, now).username == s.username,
        apply_event(s, e, now).input == s.input,
{
}

/// The user's own message, coming back from the network, changes nothing:
/// it was shown when it was sent.
pub proof fn law_own_message_not_repeated(s: SessionView, content: Seq<char>, now: Seq<char>)
    ensures
        apply_event(s, NetworkEventView::MessageReceived(s.username, content), now) == s,
{
}

/// A message from anyone else is shown as the newest line.
pub proof fn law_others_messages_shown(s: SessionView, sender: Seq<char>, content: Seq<char>, now: Seq<char>)
    requires
        sender != s.username,
    ensures
        apply_event(s, NetworkEventView::MessageReceived(sender, content), now).messages
            == s.messages.push(chat_line(now, sender, content)),
{
}

/// After a peer connects it is listed under the name it came with; after it
/// then disconnects the table is the old one without it.
pub proof fn law_connect_then_disconnect(s: SessionView, id: Seq<char>, name: Seq<char>, now: Seq<char>)
    ensures
        apply_event(s, NetworkEventView::PeerConnected(id, name), now).peers.contains_key(id),
        apply_event(s, NetworkEventView::PeerConnected(id, name), now).peers[id] == name,
        apply_event(
            apply_event(s, NetworkEventView::PeerConnected(id, name), now),
            NetworkEventView::PeerDisconnected(id),
            now,
        ).peers == s.peers.remove(id),
        !apply_event(s, NetworkEventView::PeerDisconnected(id), now).peers.contains_key(id),
{
    assert(s.peers.insert(id, name).remove(id) =~= s.peers.remove(id));
}

/// A plain keypress.
pub open spec fn press(code: KeyCode) -> KeyPress {
    KeyPress { code, pressed: true, control: false }
}

/// Typing a character and erasing it gives back the input line as it was,
/// and the window otherwise untouched.
pub proof fn law_backspace_undoes_typing(s: SessionView, c: char, now: Seq<char>)
    ensures
        apply_key(apply_key(s, press(KeyCode::Char(c)), now), press(KeyCode::Backspace), now) == s,
{
    assert(s.input.push(c).drop_last() =~= s.input);
}

/// Enter always empties the input line.
pub proof fn law_enter_clears_input(s: SessionView, now: Seq<char>)
    ensures
        apply_key(s, press(KeyCode::Enter), now).input.len() == 0,
{
}

/// Escape and Control-C end the session and change nothing on the way.
pub proof fn law_quit_changes_nothing(s: SessionView, key: KeyPress, now: Seq<char>)
    requires
        key_quits(key),
    ensures
        apply_key(s, key, now) == s,
        key_effect(s, key, now) == UiEffectView::Quit,
{
}

/// A key that is released or repeated changes nothing and asks for nothing.
pub proof fn law_only_presses_count(s: SessionView, key: KeyPress, now: Seq<char>)
    requires
        !key.pressed,
    ensures
        apply_key(s, key, now) == s,
        key_effect(s, key, now) == UiEffectView::Nothing,
{
}

/// What the user sends is what the window shows for it: the row handed out
/// for storing and publishing carries the same time, sender and text as the
/// new line.
pub proof fn law_sent_message_is_shown(s: SessionView, now: Seq<char>)
    ensures
        key_effect(s, press(KeyCode::Enter), now) matches UiEffectView::Publish(t, sender, content)
            ==> apply_key(s, press(KeyCode::Enter), now).messages == s.messages.push(
            chat_line(t, sender, content),
        ),
{
}

/// What the user sends on Enter is exactly the trimmed input line, under
/// the user's name and the given time, and the window gains that line; a
/// trimmed line that is not empty and starts neither a dial nor a lookup is
/// always sent.
pub proof fn law_sent_message_is_the_trimmed_line(s: SessionView, now: Seq<char>)
    ensures
        key_effect(s, press(KeyCode::Enter), now) matches UiEffectView::Publish(t, sender, content)
            ==> t == now && sender == s.username && content == trimmed(s.input) && apply_key(
            s,
            press(KeyCode::Enter),
            now,
        ).messages == s.messages.push("["@ + now + "] "@ + s.username + ": "@ + trimmed(s.input)),
        trimmed(s.input).len() > 0 && !dial_prefix().is_prefix_of(trimmed(s.input))
            && !find_prefix().is_prefix_of(trimmed(s.input)) ==> key_effect(
            s,
            press(KeyCode::Enter),
            now,
        ) == UiEffectView::Publish(now, s.username, trimmed(s.input)),
{
}

/// Every notice from the network adds exactly one line, `[System] ` and its
/// text, whatever the window already shows; the same notice twice adds it
/// twice.
pub proof fn law_every_notice_is_shown(s: SessionView, t: Seq<char>, now: Seq<char>)
    ensures
        apply_event(s, NetworkEventView::Log(t), now).messages == s.messages.push("[System] "@ + t),
        apply_event(apply_event(s, NetworkEventView::Log(t), now), NetworkEventView::Log(t), now).messages
            == s.messages.push("[System] "@ + t).push("[System] "@ + t),
{
}

/// The lines a new window opens with: the stored history, then the startup
/// notices.
pub open spec fn opening_lines(
    username: Seq<char>,
    local_peer_id: Seq<char>,
    history: Seq<(Seq<char>, Seq<char>, Seq<char>)>,
) -> Seq<Seq<char>> {
    history.map_values(|r: (Seq<char>, Seq<char>, Seq<char>)| chat_line(r.0, r.1, r.2))
        + seq![
        "Starting decentralized chat node..."@,
        "My unique Peer ID is: "@ + local_peer_id,
        "Logged in as: "@ + username,
    ]
}

/// A new window has one line per stored row, in the rows' order and whoever
/// sent its neighbours, followed by the three startup notices.
pub proof fn law_opening_lines_show_every_row(
    username: Seq<char>,
    local_peer_id: Seq<char>,
    history: Seq<(Seq<char>, Seq<char>, Seq<char>)>,
)
    ensures
        opening_lines(username, local_peer_id, history).len() == history.len() + 3,
        forall|i: int|
            0 <= i < history.len() ==> opening_lines(username, local_peer_id, history)[i] == "["@
                + (#[trigger] history[i]).0 + "] "@ + history[i].1 + ": "@ + history[i].2,
        opening_lines(username, local_peer_id, history)[history.len() as int]
            == "Starting decentralized chat node..."@,
        opening_lines(username, local_peer_id, history)[history.len() + 1int] == "My unique Peer ID is: "@
            + local_peer_id,
        opening_lines(username, local_peer_id, history)[history.len() + 2int] == "Logged in as: "@ + username,
{
}

/// The lines that show stored history rows.
pub open spec fn history_lines(rows: Seq<StoredMessage>) -> Seq<Seq<char>> {
    rows.map_values(|r: StoredMessage| chat_line(r.timestamp@, r.sender@, r.content@))
}

/// History rows as plain text.
pub open spec fn row_views(rows: Seq<StoredMessage>) -> Seq<(Seq<char>, Seq<char>, Seq<char>)> {
    rows.map_values(|r: StoredMessage| (r.timestamp@, r.sender@, r.content@))
}

/// The state of the chat window of one node.
pub struct ChatSession {
    username: String,
    messages: Vec<String>,
    input: String,
    peers: PeerTable,
}

impl View for ChatSession {
    type V = SessionView;

    closed spec fn view(&self) -> SessionView {
        SessionView {
            username: self.username@,
            messages: texts(self.messages@),
            input: self.input@,
            peers: self.peers@,
        }
    }
}

impl ChatSession {
    /// The peer table behind the window.
    pub closed spec fn peer_table(self) -> PeerTable {
        self.peers
    }

    /// A window for `username` that shows the stored history and then the
    /// startup notices.
    pub fn new(username: String, local_peer_id: &str, history: &Vec<StoredMessage>) -> (s: ChatSession)
        ensures
            s@.username == username@,
            s@.messages == opening_lines(username@, local_peer_id@, row_views(history@)),
            s@.messages.len() == history@.len() + 3,
            forall|i: int|
                0 <= i < history@.len() ==> s@.messages[i] == "["@ + (#[trigger] history@[i]).timestamp@
                    + "] "@ + history@[i].sender@ + ": "@ + history@[i].content@,
            s@.messages[history@.len() as int] == "Starting decentralized chat node..."@,
            s@.messages[history@.len() + 1int] == "My unique Peer ID is: "@ + local_peer_id@,
            s@.messages[history@.len() + 2int] == "Logged in as: "@ + username@,
            s@.input == Seq::<char>::empty(),
            s@.peers == Map::<Seq<char>, Seq<char>>::empty(),
    {
        let mut messages: Vec<String> = Vec::new();
        let n = history.len();
        for i in 0..n
            invariant
                n == history@.len(),
                messages@.len() == i,
                texts(messages@) == history_lines(history@.take(i as int)),
        {
            let ghost before = messages@;
            let line = history_line(&history[i]);
            let ghost shown_line = line@;
            messages.push(line);
            proof {
                let after = history_lines(history@.take(i + 1));
                assert(after.len() == i + 1);
                assert(messages@.len() == i + 1);
                assert forall|j: int| 0 <= j < i + 1 implies texts(messages@)[j] == after[j] by {
                    assert(history@.take(i + 1)[j] == history@[j]);
                    if j < i {
                        assert(messages@[j] == before[j]);
                        assert(texts(before)[j] == history_lines(history@.take(i as int))[j]);
                        assert(history@.take(i as int)[j] == history@[j]);
                    } else {
                        assert(messages@[j]@ == shown_line);
                    }
                }
                assert(texts(messages@) =~= after);
            }
        }
        let ghost shown = texts(messages@);
        messages.push("Starting decentralized chat node...".to_owned());
        let mut id_line = "My unique Peer ID is: ".to_owned();
        id_line.append(local_peer_id);
        messages.push(id_line);
        let mut user_line = "Logged in as: ".to_owned();
        user_line.append(username.as_str());
        messages.push(user_line);
        proof {
            assert(history@.take(n as int) =~= history@);
            assert(history_lines(history@) =~= row_views(history@).map_values(
                |r: (Seq<char>, Seq<char>, Seq<char>)| chat_line(r.0, r.1, r.2),
            ));
            assert(texts(messages@) =~= opening_lines(username@, local_peer_id@, row_views(history@)));
            law_opening_lines_show_every_row(username@, local_peer_id@, row_views(history@));
            assert forall|i: int| 0 <= i < history@.len() implies texts(messages@)[i] == "["@
                + (#[trigger] history@[i]).timestamp@ + "] "@ + history@[i].sender@ + ": "@
                + history@[i].content@ by {
                assert(row_views(history@)[i] == (history@[i].timestamp@, history@[i].sender@, history@[i].content@));
            }
        }
        let peers = PeerTable::new();
        ChatSession { username, messages, input: String::new(), peers }
    }

    /// The user's name.
    pub fn username(&self) -> (r: &String)
        ensures
            r@ == self@.username,
    {
        &self.username
    }

    /// The lines of the chat window, oldest first.
    pub fn messages(&self) -> (r: &Vec<String>)
        ensures
            texts(r@) == self@.messages,
    {
        &self.messages
    }

    /// The text typed so far.
    pub fn input(&self) -> (r: &String)
        ensures
            r@ == self@.input,
    {
        &self.input
    }

    /// The line the chat list keeps in view: the newest, if there is one.
    pub fn selected_message(&self) -> (r: Option<usize>)
        ensures
            match r {
                Some(i) => self@.messages.len() > 0 && i == self@.messages.len() - 1,
                None => self@.messages.len() == 0,
            },
    {
        if self.messages.len() == 0 {
            None
        } else {
            Some(self.messages.len() - 1)
        }
    }

    /// The names in the peer pane: one per known peer, in code point order.
    pub fn online_peers(&self) -> (r: Vec<String>)
        ensures
            lex_sorted(texts(r@)),
            texts(r@).to_multiset() == self.peer_table().names().to_multiset(),
            self.peer_table()@ == self@.peers,
            self.peer_table().well_formed(),
    {
        proof { use_type_invariant(&self.peers); }
        self.peers.sorted_names()
    }

    /// Handles a keystroke, `now` being the time shown for a message it
    /// sends.
    pub fn on_key(&mut self, key: KeyPress, now: &str) -> (e: UiEffect)
        ensures
            final(self)@ == apply_key(old(self)@, key, now@),
            e@ == key_effect(old(self)@, key, now@),
            e@ matches UiEffectView::Publish(t, sender, content) ==> t == now@ && sender
                == old(self)@.username && content == trimmed(old(self)@.input) && final(self)@.messages
                == old(self)@.messages.push("["@ + now@ + "] "@ + old(self)@.username + ": "@ + trimmed(old(self)@.input)),
            key.pressed && key.code is Enter && trimmed(old(self)@.input).len() > 0
                && !dial_prefix().is_prefix_of(trimmed(old(self)@.input))
                && !find_prefix().is_prefix_of(trimmed(old(self)@.input)) ==> e@ == UiEffectView::Publish(
                now@,
                old(self)@.username,
                trimmed(old(self)@.input),
            ),
    {
        proof { law_sent_message_is_the_trimmed_line(old(self)@, now@); }
        if !key.pressed {
            return UiEffect::Nothing;
        }
        match key.code {
            KeyCode::Char(c) => {
                if key.control && c == 'c' {
                    UiEffect::Quit
                } else {
                    push_char(&mut self.input, c);
                    assert(!key_quits(key));
                    UiEffect::Nothing
                }
            },
            KeyCode::Esc => UiEffect::Quit,
            KeyCode::Backspace => {
                let popped = pop_char(&mut self.input);
                proof {
                    if let Some(c) = popped {
                        assert(self.input@ =~= old(self).input@.drop_last());
                    }
                }
                UiEffect::Nothing
            },
            KeyCode::Other => UiEffect::Nothing,
            KeyCode::Enter => {
                let mut typed = String::new();
                std::mem::swap(&mut typed, &mut self.input);
                match interpret_line(typed.as_str()) {
                    LineCommand::Ignore => UiEffect::Nothing,
                    LineCommand::Dial(a) => UiEffect::Dial(a),
                    LineCommand::FindPeer(p) => UiEffect::FindPeer(p),
                    LineCommand::InvalidPeerId => {
                        proof { reveal_strlit("Invalid Peer ID format."); }
                        self.messages.push("Invalid Peer ID format.".to_owned());
                        proof { assert(texts(self.messages@) =~= texts(old(self).messages@).push(invalid_peer_notice())); }
                        UiEffect::Nothing
                    },
                    LineCommand::Publish(line) => {
                        let shown = format_chat_line(now, self.username.as_str(), line.as_str());
                        self.messages.push(shown);
                        proof {
                            assert(texts(self.messages@) =~= texts(old(self).messages@).push(
                                chat_line(now@, self.username@, line@),
                            ));
                        }
                        UiEffect::Publish(
                            StoredMessage {
                                timestamp: now.to_owned(),
                                sender: self.username.clone(),
                                content: line,
                            },
                        )
                    },
                }
            },
        }
    }

    /// Handles an event from the network task, `now` being the time shown for
    /// a message it brings. A message from someone else is shown and handed
    /// back to be stored; the user's own message, already shown when it was
    /// sent, is not shown twice.
    pub fn on_network_event(&mut self, event: NetworkEvent, now: &str) -> (r: Option<StoredMessage>)
        ensures
            final(self)@ == apply_event(old(self)@, event@, now@),
            match event@ {
                NetworkEventView::MessageReceived(sender, content) => if sender != old(self)@.username {
                    r matches Some(m) && m.timestamp@ == now@ && m.sender@ == sender
                        && m.content@ == content
                } else {
                    r is None
                },
                _ => r is None,
            },
            event@ matches NetworkEventView::Log(t) ==> final(self)@.messages == old(self)@.messages.push(
                "[System] "@ + t,
            ),
    {
        match event {
            NetworkEvent::Log(text) => {
                let line = format_system_line(text.as_str());
                self.messages.push(line);
                proof {
                    assert(texts(self.messages@) =~= texts(old(self).messages@).push(system_line(text@)));
                }
                None
            },
            NetworkEvent::MessageReceived(sender, content) => {
                if sender != self.username {
                    let line = format_chat_line(now, sender.as_str(), content.as_str());
                    self.messages.push(line);
                    proof {
                        assert(texts(self.messages@) =~= texts(old(self).messages@).push(
                            chat_line(now@, sender@, content@),
                        ));
                    }
                    Some(StoredMessage { timestamp: now.to_owned(), sender, content })
                } else {
                    None
                }
            },
            NetworkEvent::PeerConnected(id, name) => {
                self.peers.insert(id, name);
                None
            },
            NetworkEvent::PeerDisconnected(id) => {
                self.peers.remove(&id);
                None
            },
        }
    }
}

} // verus!
