use akkorokamui::{Credentials, Error};

fn key_error(message: &str) -> Error {
    Error::InvalidKey(message.to_string())
}

#[test]
fn read_keys() {
    let api_key = "<api_key>".to_string();
    let private_key = "<private_key>".to_string();
    let content = format!("{}\n{}", api_key, private_key);

    let credentials = Credentials::parse(&content).unwrap();
    assert_eq!(api_key, credentials.api_key());
    assert_eq!(private_key, credentials.private_key_text());
}

#[test]
fn two_lines_with_a_final_line_ending() {
    let credentials = Credentials::parse("key\nc2VjcmV0\n").unwrap();
    assert_eq!(credentials.api_key(), "key");
    assert_eq!(credentials.private_key_text(), "c2VjcmV0");
}

#[test]
fn lines_may_end_with_carriage_return_and_line_feed() {
    let credentials = Credentials::parse("key\r\nc2VjcmV0\r\n").unwrap();
    assert_eq!(credentials.api_key(), "key");
    assert_eq!(credentials.private_key_text(), "c2VjcmV0");
}

#[test]
fn a_file_with_more_than_two_lines_is_refused() {
    assert_eq!(
        Credentials::parse("a\nb\nc").err(),
        Some(key_error("more than two lines"))
    );
    assert_eq!(
        Credentials::parse("a\nb\n\n").err(),
        Some(key_error("more than two lines"))
    );
    assert_eq!(
        Credentials::parse("comment\nkey\nsecret\n").err(),
        Some(key_error("more than two lines"))
    );
}

#[test]
fn the_first_line_is_the_api_key_and_the_second_the_private_key() {
    let credentials = Credentials::parse("a\nb").unwrap();
    assert_eq!(credentials.api_key(), "a");
    assert_eq!(credentials.private_key_text(), "b");
    let credentials = Credentials::parse("\nb").unwrap();
    assert_eq!(credentials.api_key(), "");
    assert_eq!(credentials.private_key_text(), "b");
}

#[test]
fn an_empty_file_has_no_keys() {
    assert_eq!(Credentials::parse("").err(), Some(key_error("key not found")));
}

#[test]
fn a_file_with_one_line_has_no_keys() {
    assert_eq!(Credentials::parse("only").err(), Some(key_error("key not found")));
    assert_eq!(Credentials::parse("only\n").err(), Some(key_error("key not found")));
}

#[test]
fn a_private_key_with_a_control_character_is_refused() {
    assert_eq!(
        Credentials::parse("key\nsec\u{1}ret").err(),
        Some(key_error("failed to parse header value"))
    );
}

#[test]
fn an_api_key_with_a_control_character_is_refused() {
    assert_eq!(
        Credentials::parse("k\u{7f}ey\nsecret").err(),
        Some(key_error("failed to parse header value"))
    );
}

#[test]
fn a_single_line_is_refused_for_the_missing_key() {
    assert_eq!(
        Credentials::parse("se\u{0}cret").err(),
        Some(key_error("key not found"))
    );
}

#[test]
fn a_carriage_return_without_line_feed_is_part_of_the_last_line() {
    assert_eq!(
        Credentials::parse("key\nsecret\r").err(),
        Some(key_error("failed to parse header value"))
    );
}

#[test]
fn keys_may_hold_tabs_spaces_and_characters_beyond_ascii() {
    let credentials = Credentials::parse("my\tkey \u{e9}\nsecret").unwrap();
    assert_eq!(credentials.api_key(), "my\tkey \u{e9}");
}

#[test]
fn the_private_key_is_decoded_from_base64() {
    let credentials = Credentials::parse("key\nc2VjcmV0").unwrap();
    assert_eq!(credentials.private_key().unwrap(), b"secret".to_vec());
}

#[test]
fn a_private_key_that_is_no_base64_is_an_invalid_key() {
    let credentials = Credentials::parse("key\n<private_key>").unwrap();
    assert_eq!(
        credentials.private_key().err(),
        Some(key_error("Invalid byte 62, offset 12."))
    );
    let credentials = Credentials::parse("key\nc2VjcmV").unwrap();
    assert!(matches!(credentials.private_key(), Err(Error::InvalidKey(_))));
}

#[test]
fn cloned_credentials_hold_the_same_keys() {
    let credentials = Credentials::parse("key\nc2VjcmV0").unwrap();
    let copy = credentials.clone();
    assert_eq!(copy.api_key(), "key");
    assert_eq!(copy.private_key_text(), "c2VjcmV0");
}
