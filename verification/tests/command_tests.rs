use chat_core::command::find_peer_command;
use chat_core::{classify_line, generate_identity, interpret_line, LineCommand, LineKind};

#[test]
fn blank_lines_are_blank() {
    assert_eq!(classify_line(""), LineKind::Blank);
    assert_eq!(classify_line("  \t "), LineKind::Blank);
}

#[test]
fn ip4_lines_dial_the_trimmed_line() {
    assert_eq!(
        classify_line("  /ip4/10.0.0.2/tcp/4001 "),
        LineKind::Dial("/ip4/10.0.0.2/tcp/4001".to_string())
    );
}

#[test]
fn other_slash_lines_are_messages() {
    assert_eq!(classify_line("/ip6/::1/tcp/1"), LineKind::Publish("/ip6/::1/tcp/1".to_string()));
    assert_eq!(classify_line("/find"), LineKind::Publish("/find".to_string()));
    assert_eq!(classify_line("/findx"), LineKind::Publish("/findx".to_string()));
}

#[test]
fn find_lines_carry_the_trimmed_peer_text() {
    assert_eq!(classify_line("/find   Qm123  "), LineKind::FindPeer("Qm123".to_string()));
    assert_eq!(classify_line("/find /find Qm123"), LineKind::FindPeer("Qm123".to_string()));
    assert_eq!(classify_line("/find /find "), LineKind::FindPeer("/find".to_string()));
}

#[test]
fn messages_are_trimmed() {
    assert_eq!(classify_line("  hi there \n"), LineKind::Publish("hi there".to_string()));
}

#[test]
fn interpreting_a_valid_find() {
    let (_, id) = generate_identity();
    let line = format!("/find {}", id);
    assert_eq!(interpret_line(&line), LineCommand::FindPeer(id));
}

#[test]
fn interpreting_an_invalid_find() {
    assert_eq!(interpret_line("/find nonsense!"), LineCommand::InvalidPeerId);
    assert_eq!(interpret_line("/find /find x0"), LineCommand::InvalidPeerId);
}

#[test]
fn interpreting_other_lines() {
    assert_eq!(interpret_line("   "), LineCommand::Ignore);
    assert_eq!(interpret_line("/ip4/1.2.3.4/tcp/5"), LineCommand::Dial("/ip4/1.2.3.4/tcp/5".to_string()));
    assert_eq!(interpret_line(" hello "), LineCommand::Publish("hello".to_string()));
}

#[test]
fn find_command_from_parse_result() {
    let (_, id) = generate_identity();
    assert_eq!(find_peer_command(Some(id)), LineCommand::FindPeer(id));
    assert_eq!(find_peer_command(None), LineCommand::InvalidPeerId);
}
