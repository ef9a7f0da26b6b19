use bot_rs_core::plugin::InvocationError;
use bot_rs_core::text::usize_to_string;
use bot_rs_core::text::{
    ends_with_str, join_with, split_char, starts_with_str, str_eq, str_eq_ignore_ascii_case,
};

#[test]
fn split_keeps_every_piece() {
    assert_eq!(split_char("a,b", ','), vec!["a", "b"]);
    assert_eq!(split_char("", ','), vec![""]);
    assert_eq!(split_char("a,,b", ','), vec!["a", "", "b"]);
    assert_eq!(split_char(",a,", ','), vec!["", "a", ""]);
    assert_eq!(split_char("solo", ','), vec!["solo"]);
}

#[test]
fn join_separates_parts() {
    assert_eq!(join_with(&vec![], ", "), "");
    assert_eq!(join_with(&vec!["a".to_string()], ", "), "a");
    assert_eq!(
        join_with(&vec!["a".to_string(), "b".to_string(), "c".to_string()], "%20"),
        "a%20b%20c"
    );
}

#[test]
fn decimal_rendering() {
    assert_eq!(usize_to_string(0), "0");
    assert_eq!(usize_to_string(7), "7");
    assert_eq!(usize_to_string(10), "10");
    assert_eq!(usize_to_string(512), "512");
    assert_eq!(usize_to_string(100230), "100230");
}

#[test]
fn invocation_error_display() {
    assert_eq!(
        InvocationError::Other {
            msg: "broken".to_string()
        }
        .display_string(),
        "InvocationError: broken\n"
    );
    assert_eq!(
        InvocationError::InvalidArgumentCount {
            expected: 2,
            found: 13
        }
        .display_string(),
        "Invalid argument count: 13 (expected 2)\n"
    );
}

#[test]
fn string_comparisons() {
    assert!(str_eq("abc", "abc"));
    assert!(!str_eq("abc", "abd"));
    assert!(str_eq_ignore_ascii_case("PrIvMsG", "privmsg"));
    assert!(!str_eq_ignore_ascii_case("privmsg", "privmsg "));
    assert!(starts_with_str("oauth:token", "oauth:"));
    assert!(!starts_with_str("oauth", "oauth:"));
    assert!(ends_with_str("plugin.so", ".so"));
    assert!(!ends_with_str("plugin.sox", ".so"));
}
