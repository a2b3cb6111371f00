use ssr::url::{check_escapes, Direction, UrlCommand, UrlError};

#[test]
fn encode_space() {
    let r = UrlCommand::new("a b", Direction::Encode).run();
    assert_eq!(r.unwrap(), "a%20b");
}

#[test]
fn encode_keeps_unreserved_and_escapes_utf8() {
    let r = UrlCommand::new("A-z_0.~é/", Direction::Encode).run();
    assert_eq!(r.unwrap(), "A-z_0.~%C3%A9%2F");
}

#[test]
fn decode_malformed_escape_fails() {
    let r = UrlCommand::new("%zz", Direction::Decode).run();
    assert_eq!(r, Err(UrlError::MalformedEscape));
}

#[test]
fn decode_truncated_escape_fails() {
    let r = UrlCommand::new("abc%4", Direction::Decode).run();
    assert_eq!(r, Err(UrlError::MalformedEscape));
}

#[test]
fn decode_invalid_utf8_fails() {
    let r = UrlCommand::new("%ff", Direction::Decode).run();
    assert_eq!(r, Err(UrlError::InvalidUtf8));
}

#[test]
fn decode_round_trip() {
    let r = UrlCommand::new("a%20b%C3%A9+", Direction::Decode).run();
    assert_eq!(r.unwrap(), "a bé+");
}

#[test]
fn escape_check() {
    assert!(check_escapes("plain"));
    assert!(check_escapes("%41%aF"));
    assert!(!check_escapes("%"));
    assert!(!check_escapes("%4g"));
}
