use auv_cli::text::{contains_text, is_blank_text, join, starts_with, take_chars, trim};

#[test]
fn text_helpers_follow_their_str_counterparts() {
    assert_eq!(trim("  a b \t"), "a b");
    assert_eq!(trim(" \n "), "");
    assert!(is_blank_text(" \t\n"));
    assert!(!is_blank_text(" x "));
    assert!(starts_with("auv-osu", "auv-"));
    assert!(!starts_with("au", "auv-"));
    assert_eq!(take_chars("déjà vu", 4), "déjà");
    assert_eq!(join(&vec!["a".to_string(), "b".to_string(), "c".to_string()], ", "), "a, b, c");
    assert_eq!(join(&vec![], ", "), "");
    assert!(contains_text("hello world", "lo w"));
    assert!(contains_text("hello", ""));
    assert!(!contains_text("hello", "world"));
}
