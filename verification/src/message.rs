//! What a chat message is on the wire and in the local history, and the
//! lines the chat window shows.

use vstd::prelude::*;
use vstd::string::StringExecFns;

verus! {

/// The payload that peers exchange over the chat topic.
#[derive(Clone, Debug, PartialEq, Eq)]
pub struct ChatMessage {
    pub sender: String,
    pub content: String,
}

/// One row of the local message history: when it was shown, who wrote it and
/// what it says.
#[derive(Clone, Debug, PartialEq, Eq)]
pub struct StoredMessage {
    pub timestamp: String,
    pub sender: String,
    pub content: String,
}

/// The line shown for a chat message: `[timestamp] sender: content`.
pub open spec fn chat_line(timestamp: Seq<char>, sender: Seq<char>, content: Seq<char>) -> Seq<char> {
    "["@ + timestamp + "] "@ + sender + ": "@ + content
}

/// The line shown for a notice from the network task: `[System] text`.
pub open spec fn system_line(text: Seq<char>) -> Seq<char> {
    "[System] "@ + text
}

/// Builds `[timestamp] sender: content`.
pub fn format_chat_line(timestamp: &str, sender: &str, content: &str) -> (r: String)
    ensures
        r@ == chat_line(timestamp@, sender@, content@),
{
    let mut s = "[".to_owned();
    s.append(timestamp);
    s.append("] ");
    s.append(sender);
    s.append(": ");
    s.append(content);
    s
}

/// Builds `[System] text`.
pub fn format_system_line(text: &str) -> (r: String)
    ensures
        r@ == system_line(text@),
{
    let mut s = "[System] ".to_owned();
    s.append(text);
    s
}

/// The line that shows a stored history row.
pub fn history_line(row: &StoredMessage) -> (r: String)
    ensures
        r@ == chat_line(row.timestamp@, row.sender@, row.content@),
{
    format_chat_line(row.timestamp.as_str(), row.sender.as_str(), row.content.as_str())
}

} // verus!
