use akkorokamui::header::validate_header_text;
use akkorokamui::text::{decimal_string, is_text_before, same_text, split_lines};

#[test]
fn numbers_in_decimal() {
    assert_eq!(decimal_string(0), "0");
    assert_eq!(decimal_string(7), "7");
    assert_eq!(decimal_string(10), "10");
    assert_eq!(decimal_string(1203), "1203");
    assert_eq!(decimal_string(1616492376594), "1616492376594");
    assert_eq!(decimal_string(u64::MAX), "18446744073709551615");
}

#[test]
fn numbers_in_decimal_as_the_standard_library_writes_them() {
    for value in [1u64, 9, 99, 100, 101, 65535, 4294967296, 999999999999] {
        assert_eq!(decimal_string(value), value.to_string());
    }
}

#[test]
fn lines_of_a_text() {
    let none: Vec<String> = Vec::new();
    assert_eq!(split_lines(""), none);
    assert_eq!(split_lines("a"), vec!["a"]);
    assert_eq!(split_lines("a\n"), vec!["a"]);
    assert_eq!(split_lines("a\nb"), vec!["a", "b"]);
    assert_eq!(split_lines("a\nb\n"), vec!["a", "b"]);
    assert_eq!(split_lines("\n"), vec![""]);
    assert_eq!(split_lines("\n\n"), vec!["", ""]);
    assert_eq!(split_lines("a\n\nb"), vec!["a", "", "b"]);
}

#[test]
fn lines_that_end_with_carriage_returns() {
    assert_eq!(split_lines("a\r\nb\r\n"), vec!["a", "b"]);
    assert_eq!(split_lines("a\r\r\nb"), vec!["a\r", "b"]);
    assert_eq!(split_lines("a\rb\n"), vec!["a\rb"]);
    assert_eq!(split_lines("\r\n"), vec![""]);
    assert_eq!(split_lines("a\nb\r"), vec!["a", "b\r"]);
    assert_eq!(split_lines("\r"), vec!["\r"]);
}

#[test]
fn lines_as_the_standard_library_splits_them() {
    for text in [
        "",
        "one",
        "one\ntwo",
        "one\r\ntwo\r\n",
        "\n\n\n",
        "foo\r\nbar\n\nbaz\r",
        "caf\u{e9}\n\u{1f600}\r\nend",
        "\r\n\r\n",
        "a\r",
    ] {
        let expected: Vec<String> = text.lines().map(|line| line.to_string()).collect();
        assert_eq!(split_lines(text), expected);
    }
}

#[test]
fn texts_are_compared_character_by_character() {
    assert!(same_text("", ""));
    assert!(same_text("EUR", "EUR"));
    assert!(same_text("caf\u{e9}", "caf\u{e9}"));
    assert!(!same_text("EUR", "EUr"));
    assert!(!same_text("EUR", "EURO"));
    assert!(!same_text("EUR", ""));
}

#[test]
fn text_that_a_header_value_may_hold() {
    assert_eq!(validate_header_text(""), Ok(()));
    assert_eq!(validate_header_text("plain text"), Ok(()));
    assert_eq!(validate_header_text("with\ttab"), Ok(()));
    assert_eq!(validate_header_text(" ~"), Ok(()));
    assert_eq!(validate_header_text("caf\u{e9} \u{1f600}"), Ok(()));
    assert_eq!(validate_header_text("\u{80}"), Ok(()));
}

#[test]
fn text_that_a_header_value_may_not_hold() {
    let refused = Err("failed to parse header value".to_string());
    assert_eq!(validate_header_text("\u{0}"), refused);
    assert_eq!(validate_header_text("a\nb"), refused);
    assert_eq!(validate_header_text("a\rb"), refused);
    assert_eq!(validate_header_text("\u{1f}"), refused);
    assert_eq!(validate_header_text("del\u{7f}"), refused);
}

#[test]
fn texts_are_ordered_by_their_bytes() {
    assert!(is_text_before("", "a"));
    assert!(is_text_before("a", "b"));
    assert!(is_text_before("a", "aa"));
    assert!(is_text_before("Z", "a"));
    assert!(is_text_before("pai", "pair"));
    assert!(is_text_before("z", "\u{e9}"));
    assert!(!is_text_before("", ""));
    assert!(!is_text_before("a", "a"));
    assert!(!is_text_before("b", "a"));
    assert!(!is_text_before("aa", "a"));
    assert!(!is_text_before("a", ""));
}

#[test]
fn texts_are_ordered_as_the_standard_library_orders_them() {
    let texts = ["", "a", "A", "ab", "b", "caf\u{e9}", "cafe", "\u{1f600}", "pair", "pai"];
    for left in texts {
        for right in texts {
            assert_eq!(is_text_before(left, right), left < right);
        }
    }
}
