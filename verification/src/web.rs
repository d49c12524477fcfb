//! URLs, header values and status codes, as `reqwest` reads them.

use vstd::prelude::*;
use crate::text;

verus! {

/// A URL as `reqwest::Url::parse` reads it, written out again; where it is not
/// one, the text of the parse error.
pub uninterp spec fn url_parse(url: Seq<char>) -> Result<Seq<char>, Seq<char>>;

pub open spec fn text_result(r: Result<String, String>) -> Result<Seq<char>, Seq<char>> {
    match r {
        Ok(s) => Ok(s@),
        Err(s) => Err(s@),
    }
}

/// `reqwest::Url::parse`, named by `url_parse`: the URL is written out with
/// `to_string`, and so is the error.
#[verifier::external_body]
pub(crate) fn parse_url(url: &str) -> (r: Result<String, String>)
    ensures
        text_result(r) == url_parse(url@),
{
    match reqwest::Url::parse(url) {
        Ok(parsed) => Ok(parsed.to_string()),
        Err(error) => Err(error.to_string()),
    }
}

/// A URL resolved against a base URL as `reqwest::Url::join` does it, written
/// out; where that fails, the text of the error.
pub uninterp spec fn url_join(base: Seq<char>, url: Seq<char>) -> Result<Seq<char>, Seq<char>>;

/// `reqwest::Url::join` on the parsed base, named by `url_join`. The error is
/// that of the base, where the base is no URL, and else that of the join.
#[verifier::external_body]
pub(crate) fn join_url(base: &str, url: &str) -> (r: Result<String, String>)
    ensures
        text_result(r) == url_join(base@, url@),
{
    match reqwest::Url::parse(base).and_then(|parsed| parsed.join(url)) {
        Ok(joined) => Ok(joined.to_string()),
        Err(error) => Err(error.to_string()),
    }
}

/// The path segments of a URL as `reqwest::Url::path_segments` gives them;
/// nothing where the text is no URL or the URL has no segments.
pub uninterp spec fn url_segments(url: Seq<char>) -> Option<Seq<Seq<char>>>;

pub open spec fn opt_texts(o: Option<Vec<String>>) -> Option<Seq<Seq<char>>> {
    match o {
        Some(v) => Some(text::texts(v@)),
        None => None,
    }
}

/// `reqwest::Url::path_segments` on the parsed URL, named by `url_segments`.
#[verifier::external_body]
pub(crate) fn path_segments(url: &str) -> (r: Option<Vec<String>>)
    ensures
        opt_texts(r) == url_segments(url@),
{
    let parsed = reqwest::Url::parse(url).ok()?;
    let segments = parsed.path_segments()?;
    Some(segments.map(|segment| segment.to_owned()).collect())
}

/// Whether a byte of a header value is visible ASCII or a tab.
pub open spec fn visible_byte(b: u8) -> bool {
    32 <= b < 127 || b == 9
}

/// The text of a header value, where all its bytes are visible ASCII.
pub open spec fn header_chars(bytes: Seq<u8>) -> Option<Seq<char>> {
    if forall|i: int| 0 <= i < bytes.len() ==> visible_byte(#[trigger] bytes[i]) {
        Some(Seq::new(bytes.len(), |i: int| bytes[i] as char))
    } else {
        None
    }
}

/// `reqwest::header::HeaderValue::to_str` on a value of these bytes: the text
/// is there exactly where every byte is visible ASCII or a tab, and has one
/// character for each byte.
#[verifier::external_body]
pub(crate) fn header_text(bytes: &[u8]) -> (r: Option<String>)
    ensures
        text::opt_text(r) == header_chars(bytes@),
{
    let value = reqwest::header::HeaderValue::from_bytes(bytes).ok()?;
    value.to_str().ok().map(|s| s.to_owned())
}

/// Whether a text can stand in a header: it has no control character but the
/// tab.
pub open spec fn header_safe(s: Seq<char>) -> bool {
    forall|i: int| 0 <= i < s.len() ==> (#[trigger] s[i] as u32 >= 32 && s[i] as u32 != 127) || s[i]
        == '\t'
}

/// `reqwest::header::HeaderValue::from_str`: refuses exactly the texts with a
/// control character other than the tab, always with the same words.
#[verifier::external_body]
pub(crate) fn header_value_error(s: &str) -> (r: Option<String>)
    ensures
        r is None <==> header_safe(s@),
        r is Some ==> r->0@ == "failed to parse header value"@,
{
    reqwest::header::HeaderValue::from_str(s).err().map(|error| error.to_string())
}

/// A status code in words as `reqwest::StatusCode` writes it; empty where the
/// number is no status code.
pub uninterp spec fn status_words(code: u16) -> Seq<char>;

/// `reqwest::StatusCode::from_u16` and its `to_string`, named by
/// `status_words`.
#[verifier::external_body]
pub(crate) fn status_text(code: u16) -> (r: String)
    ensures
        r@ == status_words(code),
{
    reqwest::StatusCode::from_u16(code).map(|status| status.to_string()).unwrap_or_default()
}

/// The bytes of a header value are text exactly where each is visible or a tab, and then
/// each is its own character.
pub proof fn headers_are_text_where_all_bytes_are_visible(bytes: Seq<u8>, i: int)
    requires
        0 <= i < bytes.len(),
    ensures
        header_chars(bytes) is Some ==> (32 <= bytes[i] <= 126 || bytes[i] == 9),
        header_chars(bytes) matches Some(s) ==> s.len() == bytes.len() && s[i] as int
            == bytes[i] as int,
        (forall|j: int| 0 <= j < bytes.len() ==> 32 <= #[trigger] bytes[j] <= 126) ==> header_chars(
            bytes,
        ) is Some,
{
    assert(visible_byte(bytes[i]) <==> (32 <= bytes[i] <= 126 || bytes[i] == 9));
}

} // verus!
