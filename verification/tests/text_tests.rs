use chat_core::text::{
    chars_of, decimal_string, lex_less_or_equal, starts_with, string_from_chars,
    strip_leading_repeats, trim,
};

#[test]
fn trim_removes_ascii_white_space_at_both_ends() {
    assert_eq!(trim("  hello world \t\n"), "hello world");
}

#[test]
fn trim_removes_unicode_white_space() {
    assert_eq!(trim("\u{3000}\u{a0}hi\u{2028}\u{85}"), "hi");
}

#[test]
fn trim_of_blank_is_empty() {
    assert_eq!(trim(" \t \r\n"), "");
    assert_eq!(trim(""), "");
}

#[test]
fn trim_agrees_with_std_trim() {
    for s in ["a", " a", "a ", " a b ", "\u{200a}x\u{2000}", "\u{1680} y z\u{205f}", "\u{200b}q"] {
        assert_eq!(trim(s), s.trim());
    }
}

#[test]
fn trim_twice_is_trim_once() {
    let once = trim("  \t  spaced out  \n");
    assert_eq!(trim(&once), once);
}

#[test]
fn every_white_space_character_is_trimmed() {
    for c in [' ', '\t', '\n', '\u{b}', '\u{c}', '\r', '\u{85}', '\u{a0}', '\u{1680}', '\u{2000}', '\u{2005}',
              '\u{200a}', '\u{2028}', '\u{2029}', '\u{202f}', '\u{205f}', '\u{3000}'] {
        assert_eq!(trim(&format!("{c}x{c}")), "x");
    }
    for c in ['\u{200b}', '_', '\u{1f600}', '\u{feff}'] {
        let s = format!("{c}x{c}");
        assert_eq!(trim(&s), s);
    }
}

#[test]
fn starts_with_checks_the_prefix() {
    assert!(starts_with("/ip4/1.2.3.4", "/ip4/"));
    assert!(!starts_with("/ip6/::1", "/ip4/"));
    assert!(!starts_with("/ip", "/ip4/"));
    assert!(starts_with("anything", ""));
}

#[test]
fn strip_leading_repeats_removes_every_repetition() {
    assert_eq!(strip_leading_repeats("/find /find abc", "/find "), "abc");
    assert_eq!(strip_leading_repeats("/find abc", "/find "), "abc");
    assert_eq!(strip_leading_repeats("abc/find ", "/find "), "abc/find ");
    assert_eq!(strip_leading_repeats("/find ", "/find "), "");
}

#[test]
fn strip_leading_repeats_with_empty_pattern_keeps_everything() {
    assert_eq!(strip_leading_repeats("abc", ""), "abc".trim_start_matches(""));
    assert_eq!(strip_leading_repeats("abc", ""), "abc");
}

#[test]
fn strip_leading_repeats_agrees_with_std() {
    for s in ["/find /find  x", "/find", "/find /fin", "xx/find "] {
        assert_eq!(strip_leading_repeats(s, "/find "), s.trim_start_matches("/find "));
    }
}

#[test]
fn decimal_string_matches_to_string() {
    for n in [0u64, 7, 9, 10, 99, 100, 1234567890, u64::MAX] {
        assert_eq!(decimal_string(n), n.to_string());
    }
}

#[test]
fn decimal_string_exact_values() {
    assert_eq!(decimal_string(0), "0");
    assert_eq!(decimal_string(42), "42");
    assert_eq!(decimal_string(18446744073709551615), "18446744073709551615");
}

#[test]
fn lex_order_is_code_point_order() {
    assert!(lex_less_or_equal("alice", "bob"));
    assert!(!lex_less_or_equal("bob", "alice"));
    assert!(lex_less_or_equal("al", "alice"));
    assert!(!lex_less_or_equal("alice", "al"));
    assert!(lex_less_or_equal("same", "same"));
    assert!(lex_less_or_equal("Zed", "adam"));
    assert!(lex_less_or_equal("z", "\u{e9}"));
}

#[test]
fn lex_order_agrees_with_string_order() {
    let words = ["", "a", "B", "ab", "\u{e9}t\u{e9}", "\u{1f600}", "Unknown (12D3KooW)", "zz"];
    for a in words {
        for b in words {
            assert_eq!(lex_less_or_equal(a, b), a.to_string() <= b.to_string());
        }
    }
}

#[test]
fn chars_round_trip() {
    let v = chars_of("h\u{e9}llo \u{1f600}");
    assert_eq!(v, vec!['h', '\u{e9}', 'l', 'l', 'o', ' ', '\u{1f600}']);
    assert_eq!(string_from_chars(&v), "h\u{e9}llo \u{1f600}");
}
