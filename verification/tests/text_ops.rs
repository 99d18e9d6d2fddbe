use deploy_core::text::{
    chars_of, contains, cut, decimal_text, is_true_word, joined, removed, split_on, starts_with,
};

#[test]
fn split_on_gives_one_piece_more_than_separators() {
    assert_eq!(split_on("heroku/python@3", '@'), vec!["heroku/python", "3"]);
    assert_eq!(split_on("a@b@c", '@'), vec!["a", "b", "c"]);
    assert_eq!(split_on("", '@'), vec![""]);
    assert_eq!(split_on("@", '@'), vec!["", ""]);
    assert_eq!(split_on("no separator", '@'), vec!["no separator"]);
    assert_eq!(split_on("6.0.9", '.'), vec!["6", "0", "9"]);
}

#[test]
fn contains_finds_runs_of_characters() {
    assert!(contains("web: run\nworker: work", "worker"));
    assert!(!contains("web: run", "worker"));
    assert!(contains("abc", ""));
    assert!(contains("", ""));
    assert!(!contains("", "a"));
    assert!(contains("aab", "ab"));
    assert!(!contains("ab", "abc"));
}

#[test]
fn starts_with_checks_the_beginning() {
    assert!(starts_with("6.x", "6."));
    assert!(!starts_with("16.x", "6."));
    assert!(starts_with("5.0.6", "5."));
    assert!(!starts_with("5", "5."));
    assert!(starts_with("abc", ""));
}

#[test]
fn decimal_text_writes_numbers() {
    assert_eq!(decimal_text(0), "0");
    assert_eq!(decimal_text(7), "7");
    assert_eq!(decimal_text(10), "10");
    assert_eq!(decimal_text(365), "365");
    assert_eq!(decimal_text(u64::MAX), "18446744073709551615");
}

#[test]
fn joined_puts_the_separator_between_parts() {
    let parts = vec!["a".to_string(), "b".to_string(), "c".to_string()];
    assert_eq!(joined(&parts, ", "), "a, b, c");
    assert_eq!(joined(&vec!["only".to_string()], "/ "), "only");
    assert_eq!(joined(&Vec::new(), "/ "), "");
}

#[test]
fn removed_drops_every_occurrence() {
    assert_eq!(removed("my_redis-db", '_'), "myredis-db");
    assert_eq!(removed(removed("my_redis-db", '_').as_str(), '-'), "myredisdb");
    assert_eq!(removed("v6", 'v'), "6");
    assert_eq!(removed("", 'v'), "");
}

#[test]
fn cut_keeps_a_prefix() {
    assert_eq!(cut("abcdef", 3), "abc");
    assert_eq!(cut("abc", 3), "abc");
    assert_eq!(cut("ab", 3), "ab");
    assert_eq!(cut("", 0), "");
}

#[test]
fn true_is_recognised_in_any_case() {
    assert!(is_true_word("true"));
    assert!(is_true_word("TRUE"));
    assert!(is_true_word("True"));
    assert!(is_true_word("tRuE"));
    assert!(!is_true_word("false"));
    assert!(!is_true_word("true "));
    assert!(!is_true_word("yes"));
    assert!(!is_true_word(""));
}

#[test]
fn true_word_agrees_with_lowercasing() {
    for s in ["true", "TRUE", "TrUe", "truE", "tru", "true!", "ture", "\u{212a}rue", "trUE"] {
        assert_eq!(is_true_word(s), s.to_lowercase() == "true");
    }
}

#[test]
fn chars_of_lists_the_characters() {
    assert_eq!(chars_of("aé✅"), vec!['a', 'é', '✅']);
    assert_eq!(chars_of(""), Vec::<char>::new());
}
