use url_shortener::parser::long_url::{is_blank, is_whitespace_char};
use url_shortener::parser::LongUrl;

#[test]
fn empty_string_is_rejected() {
    let url = Option::from("".to_string());
    assert!(LongUrl::parse(url).is_err());
}

#[test]
fn correct_url_format_is_accepted() {
    let url = Option::from("http://localhost.com".to_string());
    assert!(LongUrl::parse(url).is_ok());
}

#[test]
fn non_url_is_rejected() {
    let url = Option::from("hello".to_string());
    assert!(LongUrl::parse(url).is_err());
}

#[test]
fn missing_long_url_is_rejected_with_its_message() {
    let err = LongUrl::parse(None).unwrap_err();
    assert_eq!(err, "Invalid JSON data: missing field longUrl");
}

#[test]
fn empty_long_url_is_rejected_with_its_message() {
    let err = LongUrl::parse(Some(String::new())).unwrap_err();
    assert_eq!(err, "Invalid JSON data: field longUrl cannot be empty");
}

#[test]
fn white_space_long_url_is_rejected_as_empty() {
    let err = LongUrl::parse(Some(" \t\n\u{3000}\u{a0}".to_string())).unwrap_err();
    assert_eq!(err, "Invalid JSON data: field longUrl cannot be empty");
}

#[test]
fn non_url_is_rejected_with_its_message() {
    let err = LongUrl::parse(Some("hello".to_string())).unwrap_err();
    assert_eq!(err, "Invalid JSON data: 'hello' is not a valid long URL");
}

#[test]
fn accepted_url_is_kept_as_given() {
    let url = LongUrl::parse(Some(" https://example.com/a?b=c ".to_string())).unwrap();
    assert_eq!(url.as_ref(), " https://example.com/a?b=c ");
}

#[test]
fn check_follows_the_given_validity() {
    assert!(LongUrl::check("hello".to_string(), true).is_ok());
    assert_eq!(
        LongUrl::check("http://x.org".to_string(), false).unwrap_err(),
        "Invalid JSON data: 'http://x.org' is not a valid long URL"
    );
    assert_eq!(
        LongUrl::check("  ".to_string(), true).unwrap_err(),
        "Invalid JSON data: field longUrl cannot be empty"
    );
}

#[test]
fn blank_text_is_only_white_space() {
    assert!(is_blank(""));
    assert!(is_blank(" \u{2028}\u{1680}\r"));
    assert!(!is_blank(" a "));
    assert!(!is_blank("\u{200b}"));
}

#[test]
fn white_space_characters_agree_with_std() {
    for v in 0u32..0x3100 {
        if let Some(c) = char::from_u32(v) {
            assert_eq!(is_whitespace_char(c), c.is_whitespace(), "{:x}", v);
        }
    }
}
