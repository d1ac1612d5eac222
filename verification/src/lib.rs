//! Core of a serverless terminal chat node: the rules by which a node turns
//! keystrokes and network happenings into chat history, peer lists and
//! commands for the swarm, together with the small libp2p facts it relies on.

pub mod base58;
pub mod p2p;
pub mod text;
pub mod message;
pub mod peer_table;
pub mod command;
pub mod network;
pub mod reaction;
pub mod gossip;
pub mod session;
pub mod setup;

pub use command::{classify_line, interpret_line, LineCommand, LineKind};
pub use message::{ChatMessage, StoredMessage};
pub use network::{NetworkCommand, NetworkEvent};
pub use p2p::{generate_identity, message_id, GLOBAL_TOPIC_NAME};
pub use peer_table::PeerTable;
pub use session::{ChatSession, KeyCode, KeyPress, UiEffect};
