//! What a line typed into the input box asks for: nothing, a dial, a peer
//! lookup, or a chat message.

use vstd::prelude::*;
use libp2p::PeerId;
use crate::p2p::{is_peer_id_text, parse_peer_id, parsed_peer_id};
use crate::text::{lemma_trimmed, starts_with, strip_leading, strip_leading_repeats, trim, trimmed};

verus! {

/// What a typed line is, before any peer id is parsed.
#[derive(Clone, Debug, PartialEq, Eq)]
pub enum LineKind {
    /// Nothing but white space.
    Blank,
    /// A multiaddress to dial, such as `/ip4/10.0.0.1/tcp/4001`.
    Dial(String),
    /// `/find <peer id>`: the text of the peer id to look up.
    FindPeer(String),
    /// A chat message.
    Publish(String),
}

/// `LineKind` as plain text.
pub enum LineKindView {
    Blank,
    Dial(Seq<char>),
    FindPeer(Seq<char>),
    Publish(Seq<char>),
}

impl View for LineKind {
    type V = LineKindView;

    open spec fn view(&self) -> LineKindView {
        match self {
            LineKind::Blank => LineKindView::Blank,
            LineKind::Dial(s) => LineKindView::Dial(s@),
            LineKind::FindPeer(s) => LineKindView::FindPeer(s@),
            LineKind::Publish(s) => LineKindView::Publish(s@),
        }
    }
}

/// The prefix of a line that dials an IPv4 multiaddress.
pub open spec fn dial_prefix() -> Seq<char> {
    "/ip4/"@
}

/// The prefix of a line that looks a peer up.
pub open spec fn find_prefix() -> Seq<char> {
    "/find "@
}

/// The kind of a raw input line. The line is trimmed first; a line that
/// starts with `/ip4/` is dialled whole; after `/find ` (every leading
/// repetition of it removed) comes a peer id, trimmed again; anything else is
/// said in the chat.
pub open spec fn line_kind(raw: Seq<char>) -> LineKindView {
    let line = trimmed(raw);
    if line.len() == 0 {
        LineKindView::Blank
    } else if dial_prefix().is_prefix_of(line) {
        LineKindView::Dial(line)
    } else if find_prefix().is_prefix_of(line) {
        LineKindView::FindPeer(trimmed(strip_leading(line, find_prefix())))
    } else {
        LineKindView::Publish(line)
    }
}

/// A line said in the chat is the whole trimmed line, never empty and no
/// command, and every such line is said; a dialled address is the whole
/// trimmed line, and every trimmed line that starts with `/ip4/` is dialled.
pub proof fn law_line_kinds(raw: Seq<char>)
    ensures
        line_kind(raw) matches LineKindView::Publish(m) ==> m.len() > 0 && trimmed(m) == m
            && !dial_prefix().is_prefix_of(m) && !find_prefix().is_prefix_of(m),
        line_kind(raw) matches LineKindView::Dial(a) ==> a == trimmed(raw)
            && dial_prefix().is_prefix_of(a),
        line_kind(raw) matches LineKindView::FindPeer(p) ==> trimmed(p) == p,
        line_kind(raw) is Blank <==> trimmed(raw).len() == 0,
        line_kind(raw) matches LineKindView::Publish(m) ==> m == trimmed(raw),
        line_kind(raw) is Publish <==> trimmed(raw).len() > 0 && !dial_prefix().is_prefix_of(trimmed(raw))
            && !find_prefix().is_prefix_of(trimmed(raw)),
        line_kind(raw) is Dial <==> trimmed(raw).len() > 0 && dial_prefix().is_prefix_of(trimmed(raw)),
{
    lemma_trimmed(raw);
    if line_kind(raw) matches LineKindView::FindPeer(p) {
        lemma_trimmed(strip_leading(trimmed(raw), find_prefix()));
    }
}

/// Sorts a raw input line into its kind.
pub fn classify_line(raw: &str) -> (k: LineKind)
    ensures
        k@ == line_kind(raw@),
{
    let line = trim(raw);
    if line.as_str().is_empty() {
        LineKind::Blank
    } else if starts_with(line.as_str(), "/ip4/") {
        LineKind::Dial(line)
    } else if starts_with(line.as_str(), "/find ") {
        let rest = strip_leading_repeats(line.as_str(), "/find ");
        LineKind::FindPeer(trim(rest.as_str()))
    } else {
        LineKind::Publish(line)
    }
}

/// What the interface does with a typed line.
#[derive(Debug, PartialEq, Eq)]
pub enum LineCommand {
    /// Nothing: the line was blank.
    Ignore,
    /// Dial this multiaddress.
    Dial(String),
    /// Ask the DHT for peers near this one.
    FindPeer(PeerId),
    /// The text after `/find ` is not a peer id.
    InvalidPeerId,
    /// Say this in the chat.
    Publish(String),
}

/// The command for a `/find` line, given what parsing its peer id gave.
pub fn find_peer_command(parsed: Option<PeerId>) -> (c: LineCommand)
    ensures
        match parsed {
            Some(p) => c == LineCommand::FindPeer(p),
            None => c is InvalidPeerId,
        },
{
    match parsed {
        Some(p) => LineCommand::FindPeer(p),
        None => LineCommand::InvalidPeerId,
    }
}

/// What a raw input line asks the node to do.
pub fn interpret_line(raw: &str) -> (c: LineCommand)
    ensures
        match line_kind(raw@) {
            LineKindView::Blank => c is Ignore,
            LineKindView::Dial(a) => c matches LineCommand::Dial(d) && d@ == a,
            LineKindView::FindPeer(p) => if is_peer_id_text(p) {
                c == LineCommand::FindPeer(parsed_peer_id(p))
            } else {
                c is InvalidPeerId
            },
            LineKindView::Publish(m) => c matches LineCommand::Publish(t) && t@ == m,
        },
{
    match classify_line(raw) {
        LineKind::Blank => LineCommand::Ignore,
        LineKind::Dial(a) => LineCommand::Dial(a),
        LineKind::FindPeer(p) => find_peer_command(parse_peer_id(p.as_str())),
        LineKind::Publish(m) => LineCommand::Publish(m),
    }
}

} // verus!
