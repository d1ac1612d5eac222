use chat_core::message::{format_chat_line, format_system_line, history_line};
use chat_core::setup::{database_url, username_or_default};
use chat_core::StoredMessage;

#[test]
fn chat_line_layout() {
    assert_eq!(format_chat_line("12:34:56", "alice", "hello"), "[12:34:56] alice: hello");
}

#[test]
fn system_line_layout() {
    assert_eq!(format_system_line("Listening on /ip4/0.0.0.0/tcp/1"), "[System] Listening on /ip4/0.0.0.0/tcp/1");
}

#[test]
fn history_rows_show_like_chat_lines() {
    let row = StoredMessage {
        timestamp: "09:00:00".to_string(),
        sender: "bob".to_string(),
        content: "morning".to_string(),
    };
    assert_eq!(history_line(&row), "[09:00:00] bob: morning");
}

#[test]
fn username_defaults_to_anonymous() {
    assert_eq!(username_or_default(None), "Anonymous");
    assert_eq!(username_or_default(Some("carol".to_string())), "carol");
}

#[test]
fn database_url_names_the_user() {
    assert_eq!(database_url("carol"), "sqlite://carol_murmur.db?mode=rwc");
    assert_eq!(database_url("Anonymous"), "sqlite://Anonymous_murmur.db?mode=rwc");
}
