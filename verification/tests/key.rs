use url_shortener::key::{key_from_digest, short_key, short_url};

#[test]
fn key_is_the_digest_prefix() {
    assert_eq!(
        short_key("https://codingchallenges.fyi/challenges/challenge-url-shortener/"),
        "4168cd70"
    );
    assert_eq!(short_key("hello"), "2cf24dba");
    assert_eq!(short_key("helloa"), "9abfe77d");
}

#[test]
fn key_is_eight_lower_hex_digits() {
    for text in ["", "a", "http://localhost.com", "ü"] {
        let key = short_key(text);
        assert_eq!(key.chars().count(), 8);
        assert!(key.chars().all(|c| c.is_ascii_digit() || ('a'..='f').contains(&c)));
    }
}

#[test]
fn key_from_digest_takes_eight_characters() {
    assert_eq!(key_from_digest("0123456789abcdef"), "01234567");
    assert_eq!(key_from_digest("abcdefgh"), "abcdefgh");
}

#[test]
fn short_url_prefixes_the_key() {
    assert_eq!(short_url("4168cd70"), "http://localhost/4168cd70");
    assert_eq!(short_url(""), "http://localhost/");
}
