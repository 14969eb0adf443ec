//! Short keys: the first eight hexadecimal digits of the SHA-256 digest of a
//! long URL, and the short URL built from a key.

use vstd::prelude::*;

verus! {

/// The lower-case hexadecimal SHA-256 digest of the UTF-8 encoding of `text`.
pub uninterp spec fn sha256_hex(text: Seq<char>) -> Seq<char>;

/// A lower-case hexadecimal digit.
pub open spec fn is_lower_hex_digit(c: char) -> bool {
    ('0' <= c && c <= '9') || ('a' <= c && c <= 'f')
}

/// The number of characters in a short key.
pub const KEY_LEN: usize = 8;

/// The key under which a long URL is first stored.
pub open spec fn spec_short_key(text: Seq<char>) -> Seq<char> {
    sha256_hex(text).subrange(0, KEY_LEN as int)
}

/// The prefix of every short URL.
pub open spec fn short_url_prefix() -> Seq<char> {
    "http://localhost/"@
}

/// The short URL that leads to `key`.
pub open spec fn spec_short_url(key: Seq<char>) -> Seq<char> {
    short_url_prefix() + key
}

/// `sha256::digest` on a string: the SHA-256 digest of its UTF-8 bytes, as the
/// crate writes it with `hex::encode`, that is 64 lower-case hexadecimal
/// digits. The digest itself is named, not stated.
#[verifier::external_body]
fn sha256_digest(text: &str) -> (digest: String)
    ensures
        digest@ == sha256_hex(text@),
        digest@.len() == 64,
        forall|i: int| 0 <= i < digest@.len() ==> is_lower_hex_digit(#[trigger] digest@[i]),
{
    sha256::digest(text)
}

/// The key that a digest gives: its first eight characters.
pub fn key_from_digest(digest: &str) -> (key: String)
    requires
        digest@.len() >= KEY_LEN,
    ensures
        key@ == digest@.subrange(0, KEY_LEN as int),
{
    let prefix = digest.substring_char(0, KEY_LEN);
    String::from_str(prefix)
}

/// The key of a long URL: the first eight hexadecimal digits of its SHA-256
/// digest.
pub fn short_key(text: &str) -> (key: String)
    ensures
        key@ == spec_short_key(text@),
        key@.len() == KEY_LEN,
        forall|i: int| 0 <= i < key@.len() ==> is_lower_hex_digit(#[trigger] key@[i]),
{
    let digest = sha256_digest(text);
    let key = key_from_digest(digest.as_str());
    assert forall|i: int| 0 <= i < key@.len() implies is_lower_hex_digit(#[trigger] key@[i]) by {
        assert(key@[i] == digest@[i]);
    }
    key
}

/// The short URL that leads to `key`: `http://localhost/` followed by the key.
pub fn short_url(key: &str) -> (url: String)
    ensures
        url@ == spec_short_url(key@),
{
    let prefix = String::from_str("http://localhost/");
    prefix.concat(key)
}


/// The key of a long URL is the first eight characters of the SHA-256 digest
/// of the whole URL, whatever its length.
pub proof fn lemma_short_key_is_digest_prefix(text: Seq<char>)
    ensures
        spec_short_key(text) == sha256_hex(text).subrange(0, 8),
{
}

/// Two long URLs get the same key exactly when their digests begin alike.
pub proof fn lemma_short_keys_agree(a: Seq<char>, b: Seq<char>)
    ensures
        spec_short_key(a) == spec_short_key(b) <==> sha256_hex(a).subrange(0, 8) == sha256_hex(
            b,
        ).subrange(0, 8),
{
}

/// The short URL of a key is `http://localhost/` followed by the whole key:
/// what follows the seventeen characters of the prefix is the key itself.
pub proof fn lemma_short_url(key: Seq<char>)
    ensures
        spec_short_url(key) == "http://localhost/"@ + key,
        spec_short_url(key).len() == 17 + key.len(),
        spec_short_url(key).subrange(17, spec_short_url(key).len() as int) == key,
{
    reveal_strlit("http://localhost/");
    assert(spec_short_url(key).subrange(17, spec_short_url(key).len() as int) =~= key);
}

} // verus!
