//! The long URL that a client asks to shorten, and the checks it must pass.

use vstd::prelude::*;
use validator::ValidateUrl;

verus! {

/// Whether `text` parses as an absolute URL (`url::Url::parse` succeeds).
pub uninterp spec fn url_parses(text: Seq<char>) -> bool;

/// `ValidateUrl::validate_url` of the validator crate on a string: it is
/// `Url::parse(text).is_ok()`. What that parser accepts is named, not stated.
#[verifier::external_body]
fn validate_url(text: &str) -> (valid: bool)
    ensures
        valid == url_parses(text@),
{
    text.validate_url()
}

/// A character with the Unicode White_Space property, the characters that
/// `char::is_whitespace` accepts and `str::trim` removes.
pub open spec fn is_white_space(c: char) -> bool {
    let v = c as u32;
    ||| 0x9 <= v <= 0xd
    ||| v == 0x20
    ||| v == 0x85
    ||| v == 0xa0
    ||| v == 0x1680
    ||| 0x2000 <= v <= 0x200a
    ||| v == 0x2028
    ||| v == 0x2029
    ||| v == 0x202f
    ||| v == 0x205f
    ||| v == 0x3000
}

/// Text that is empty once trimmed: every character is white space.
pub open spec fn is_blank_text(text: Seq<char>) -> bool {
    forall|i: int| 0 <= i < text.len() ==> is_white_space(#[trigger] text[i])
}

/// Whether `c` has the Unicode White_Space property.
pub fn is_whitespace_char(c: char) -> (b: bool)
    ensures
        b == is_white_space(c),
{
    let v: u32 = c as u32;
    (0x9 <= v && v <= 0xd) || v == 0x20 || v == 0x85 || v == 0xa0 || v == 0x1680 || (0x2000
        <= v && v <= 0x200a) || v == 0x2028 || v == 0x2029 || v == 0x202f || v == 0x205f || v
        == 0x3000
}

/// Whether `text` is empty once trimmed of white space.
pub fn is_blank(text: &str) -> (b: bool)
    ensures
        b == is_blank_text(text@),
{
    let n: usize = text.unicode_len();
    let mut i: usize = 0;
    while i < n
        invariant
            n == text@.len(),
            i <= n,
            forall|j: int| 0 <= j < i ==> is_white_space(#[trigger] text@[j]),
        decreases n - i,
    {
        let c = text.get_char(i);
        if !is_whitespace_char(c) {
            return false;
        }
        i = i + 1;
    }
    true
}

/// The message for a request without a long URL.
pub open spec fn missing_field_message() -> Seq<char> {
    "Invalid JSON data: missing field longUrl"@
}

/// The message for a long URL that is only white space.
pub open spec fn empty_field_message() -> Seq<char> {
    "Invalid JSON data: field longUrl cannot be empty"@
}

/// The message for a long URL that is not a URL.
pub open spec fn invalid_url_message(text: Seq<char>) -> Seq<char> {
    "Invalid JSON data: '"@ + text + "' is not a valid long URL"@
}

/// What checking a long URL gives, given whether the URL parses.
pub open spec fn spec_check(text: Seq<char>, parses: bool) -> Result<Seq<char>, Seq<char>> {
    if is_blank_text(text) {
        Err(empty_field_message())
    } else if !parses {
        Err(invalid_url_message(text))
    } else {
        Ok(text)
    }
}

/// What parsing an optional long URL gives: the URL itself, or the message
/// that explains why it is refused.
pub open spec fn spec_parse(text: Option<Seq<char>>) -> Result<Seq<char>, Seq<char>> {
    match text {
        None => Err(missing_field_message()),
        Some(t) => spec_check(t, url_parses(t)),
    }
}

/// A long URL that is present, not blank, and parses as a URL.
#[derive(Debug, PartialEq, Eq)]
pub struct LongUrl(String);

impl View for LongUrl {
    type V = Seq<char>;

    closed spec fn view(&self) -> Seq<char> {
        self.0@
    }
}

/// The view of a parse result: the URL's text or the message.
pub open spec fn parsed_view(r: Result<LongUrl, String>) -> Result<Seq<char>, Seq<char>> {
    match r {
        Ok(u) => Ok(u@),
        Err(m) => Err(m@),
    }
}

impl LongUrl {
    /// Checks a long URL that is present, given whether it parses as a URL:
    /// a blank one is refused first, then one that does not parse.
    pub fn check(text: String, parses: bool) -> (res: Result<LongUrl, String>)
        ensures
            parsed_view(res) == spec_check(text@, parses),
    {
        if is_blank(text.as_str()) {
            return Err(String::from_str("Invalid JSON data: field longUrl cannot be empty"));
        }
        if !parses {
            let message = String::from_str("Invalid JSON data: '");
            let message = message.concat(text.as_str());
            return Err(message.concat("' is not a valid long URL"));
        }
        Ok(LongUrl(text))
    }

    /// Parses the long URL of a request: it must be present, not blank, and
    /// parse as a URL. The accepted URL is kept as it was given.
    pub fn parse(s: Option<String>) -> (res: Result<LongUrl, String>)
        ensures
            parsed_view(res) == spec_parse(
                match s {
                    Some(t) => Some(t@),
                    None => None,
                },
            ),
    {
        match s {
            None => Err(String::from_str("Invalid JSON data: missing field longUrl")),
            Some(text) => {
                if is_blank(text.as_str()) {
                    return Err(String::from_str("Invalid JSON data: field longUrl cannot be empty"));
                }
                let parses = validate_url(text.as_str());
                Self::check(text, parses)
            },
        }
    }

    /// The long URL's text.
    pub fn as_ref(&self) -> (text: &str)
        ensures
            text@ == self@,
    {
        self.0.as_str()
    }
}


/// A request without a long URL is refused with the missing-field message.
pub proof fn lemma_parse_missing()
    ensures
        spec_parse(None) == Err::<Seq<char>, Seq<char>>(
            "Invalid JSON data: missing field longUrl"@,
        ),
{
}

/// A long URL that is present is refused as empty exactly when it is only
/// white space; otherwise it is accepted, unchanged, exactly when it parses
/// as a URL, and refused with a message that quotes it when it does not.
/// Nothing else about the text (its length, its characters) matters.
pub proof fn lemma_parse_present(text: Seq<char>)
    ensures
        is_blank_text(text) ==> spec_parse(Some(text)) == Err::<Seq<char>, Seq<char>>(
            "Invalid JSON data: field longUrl cannot be empty"@,
        ),
        !is_blank_text(text) && url_parses(text) ==> spec_parse(Some(text)) == Ok::<
            Seq<char>,
            Seq<char>,
        >(text),
        !is_blank_text(text) && !url_parses(text) ==> spec_parse(Some(text)) == Err::<
            Seq<char>,
            Seq<char>,
        >("Invalid JSON data: '"@ + text + "' is not a valid long URL"@),
        spec_parse(Some(text)) is Ok <==> !is_blank_text(text) && url_parses(text),
{
}

/// Checking a present long URL with a given verdict of the URL parser: blank
/// text is refused as empty; other text is accepted unchanged, whatever its
/// length, when the verdict is yes, and refused with a message that quotes
/// it when the verdict is no.
pub proof fn lemma_check(text: Seq<char>, parses: bool)
    ensures
        is_blank_text(text) ==> spec_check(text, parses) == Err::<Seq<char>, Seq<char>>(
            "Invalid JSON data: field longUrl cannot be empty"@,
        ),
        !is_blank_text(text) && parses ==> spec_check(text, parses) == Ok::<Seq<char>, Seq<char>>(
            text,
        ),
        !is_blank_text(text) && !parses ==> spec_check(text, parses) == Err::<Seq<char>, Seq<char>>(
            "Invalid JSON data: '"@ + text + "' is not a valid long URL"@,
        ),
{
}

/// Empty text is blank, and text with a character that is not white space is
/// not.
pub proof fn lemma_blank_text(text: Seq<char>, i: int)
    ensures
        text.len() == 0 ==> is_blank_text(text),
        0 <= i < text.len() && !is_white_space(text[i]) ==> !is_blank_text(text),
{
}


/// The view of a parse result keeps acceptance and refusal, the accepted
/// URL's text and the message unchanged.
pub proof fn lemma_parsed_view(r: Result<LongUrl, String>)
    ensures
        r matches Ok(u) ==> parsed_view(r) == Ok::<Seq<char>, Seq<char>>(u@),
        r matches Err(m) ==> parsed_view(r) == Err::<Seq<char>, Seq<char>>(m@),
{
}

} // verus!
