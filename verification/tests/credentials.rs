use tinifycli::store::{read_key, saved_contents, LoadError, ReadOutcome};
use tinifycli::text::{is_space_char, trim};

#[test]
fn save_then_load_returns_trimmed() {
    let saved = saved_contents("  my-key \n");
    assert_eq!(saved, "my-key");
    let loaded = read_key(ReadOutcome::Content(saved));
    assert_eq!(loaded, Ok(String::from("my-key")));
}

#[test]
fn save_then_load_leaves_clean_key_alone() {
    let saved = saved_contents("abc123");
    assert_eq!(saved, "abc123");
    let loaded = read_key(ReadOutcome::Content(saved));
    assert_eq!(loaded, Ok(String::from("abc123")));
}

#[test]
fn load_missing_file_is_not_found() {
    let loaded = read_key(ReadOutcome::Missing);
    assert_eq!(loaded, Err(LoadError::NotFound));
}

#[test]
fn load_failure_is_io_error_not_not_found() {
    let loaded = read_key(ReadOutcome::Failure);
    assert_eq!(loaded, Err(LoadError::IoFailure));
}

#[test]
fn load_trims_file_contents() {
    let loaded = read_key(ReadOutcome::Content(String::from(" k\t")));
    assert_eq!(loaded, Ok(String::from("k")));
}

#[test]
fn trim_handles_empty_and_blank_strings() {
    assert_eq!(trim(""), "");
    assert_eq!(trim(" \t\r\n"), "");
}

#[test]
fn trim_keeps_inner_whitespace() {
    assert_eq!(trim("  a b  "), "a b");
}

#[test]
fn trim_removes_unicode_whitespace() {
    assert_eq!(trim("\u{3000}x\u{2000}"), "x");
}

#[test]
fn whitespace_classification() {
    assert!(is_space_char(' '));
    assert!(is_space_char('\t'));
    assert!(is_space_char('\u{00A0}'));
    assert!(!is_space_char('a'));
    assert!(!is_space_char('-'));
}
