use jira_tui::text::{decimal_text, first_chars_text, join_strings, text_equals};

#[test]
fn join_strings_puts_separator_between_parts() {
    let parts = vec!["a".to_string(), "bc".to_string(), "".to_string(), "d".to_string()];
    assert_eq!(join_strings(&parts, ", "), "a, bc, , d");
    assert_eq!(join_strings(&vec!["only".to_string()], "\n"), "only");
    assert_eq!(join_strings(&Vec::new(), "\n"), "");
}

#[test]
fn text_equals_compares_characters() {
    assert!(text_equals("To Do", "To Do"));
    assert!(!text_equals("To Do", "To do"));
    assert!(!text_equals("Done", "Don"));
    assert!(text_equals("진행 중", "진행 중"));
    assert!(!text_equals("진행 중", "진행중"));
    assert!(text_equals("", ""));
}

#[test]
fn decimal_text_writes_numbers() {
    assert_eq!(decimal_text(0), "0");
    assert_eq!(decimal_text(7), "7");
    assert_eq!(decimal_text(10), "10");
    assert_eq!(decimal_text(1234), "1234");
    assert_eq!(decimal_text(usize::MAX), usize::MAX.to_string());
}

#[test]
fn first_chars_text_counts_characters() {
    assert_eq!(first_chars_text("hello", 3), "hel");
    assert_eq!(first_chars_text("hi", 100), "hi");
    assert_eq!(first_chars_text("해결됨입니다", 3), "해결됨");
    assert_eq!(first_chars_text("", 5), "");
}
