//! URLs, as the `url` crate parses and builds them.
//!
//! Nothing in this file is proved. What the `url` crate makes of a text takes
//! pages to say, so each of its answers has a name here, and the rest of the
//! library speaks of the names.

use vstd::prelude::*;

verus! {

/// `url::Url`, a parsed URL. Verus does not look inside: what it knows of a
/// URL, it knows by the names below.
#[verifier::external_type_specification]
#[verifier::external_body]
pub struct ExUrl(url::Url);

/// `url::ParseError`, the error with which the `url` crate refuses a text.
#[verifier::external_type_specification]
#[verifier::external_body]
pub struct ExParseError(url::ParseError);

/// The longest text, in bytes, that the `url` crate keeps as a URL: it counts
/// the places in the text in 32 bits.
pub const URL_MAX_BYTES: usize = 0xffff_ffff;

/// The text of a URL, as `Url::as_str` gives it.
pub uninterp spec fn url_text(url: url::Url) -> Seq<char>;

/// What `Url::parse` makes of a text: the URL, or the error with which it
/// refuses the text.
pub uninterp spec fn url_parsed(text: Seq<char>) -> Result<url::Url, url::ParseError>;

/// What `Url::join` makes of a reference against a base.
pub uninterp spec fn url_joined(base: url::Url, reference: Seq<char>) -> Result<url::Url, url::ParseError>;

/// Whether a URL is one without a path of segments, such as `mailto:` and `data:`.
pub uninterp spec fn url_cannot_be_a_base(url: url::Url) -> bool;

/// A URL without the empty last segment of its path, if it had one. A URL that
/// cannot be a base is its own trimmed form.
pub uninterp spec fn url_trimmed(url: url::Url) -> url::Url;

/// A URL with one more segment at the end of its path, percent-encoded as the
/// `url` crate does it. A URL that cannot be a base stays as it is.
pub uninterp spec fn url_pushed(url: url::Url, segment: Seq<char>) -> url::Url;

/// How a `ParseError` is shown.
pub uninterp spec fn parse_error_text(error: url::ParseError) -> Seq<char>;

/// The length in bytes of a URL's text.
pub open spec fn url_bytes(url: url::Url) -> nat {
    vstd::utf8::encode_utf8(url_text(url)).len()
}

/// Whether a segment can be pushed: the text that comes out must fit into
/// `URL_MAX_BYTES`. A pushed segment is percent-encoded, so each of its bytes
/// may become three, and up to three bytes may come with it as separators.
pub open spec fn push_fits(url: url::Url, segment: Seq<char>) -> bool {
    url_bytes(url) + 3 * vstd::utf8::encode_utf8(segment).len() + 3 <= URL_MAX_BYTES
}

/// `Url::parse`. Believed: the same text gives the same URL, or the same error,
/// whenever it is parsed; which one is not said, but named `url_parsed`.
#[verifier::external_body]
pub(crate) fn url_parse(text: &str) -> (parsed: Result<url::Url, url::ParseError>)
    ensures
        parsed == url_parsed(text@),
{
    url::Url::parse(text)
}

/// `Url::join`. Believed: the same base and reference give the same URL, or
/// the same error; which one is not said, but named `url_joined`.
#[verifier::external_body]
pub(crate) fn url_join(base: &url::Url, reference: &str) -> (joined: Result<url::Url, url::ParseError>)
    ensures
        joined == url_joined(*base, reference@),
{
    base.join(reference)
}

/// `Url::as_str`: hands out the text of the URL, named `url_text`.
#[verifier::external_body]
pub(crate) fn url_as_str(url: &url::Url) -> (text: &str)
    ensures
        text@ == url_text(*url),
{
    url.as_str()
}

/// `Clone` of a URL. Believed: the copy is the same URL.
#[verifier::external_body]
pub(crate) fn url_clone(url: &url::Url) -> (copy: url::Url)
    ensures
        copy == *url,
{
    url.clone()
}

/// `Url::cannot_be_a_base`: tells whether the URL has no path of segments,
/// named `url_cannot_be_a_base`.
#[verifier::external_body]
pub(crate) fn url_is_cannot_be_a_base(url: &url::Url) -> (yes: bool)
    ensures
        yes == url_cannot_be_a_base(*url),
{
    url.cannot_be_a_base()
}

/// `PathSegmentsMut::pop_if_empty`, on the segments that `Url::path_segments_mut`
/// hands out. A URL that cannot be a base has no such segments and stays as it
/// is. Believed: what comes out depends on the URL alone; it is named
/// `url_trimmed`.
#[verifier::external_body]
pub(crate) fn url_pop_if_empty(url: &mut url::Url)
    ensures
        *final(url) == url_trimmed(*old(url)),
{
    if let Ok(mut segments) = url.path_segments_mut() {
        segments.pop_if_empty();
    }
}

/// `PathSegmentsMut::push`, on the segments that `Url::path_segments_mut` hands
/// out. A URL that cannot be a base has no such segments and stays as it is.
/// Believed: what comes out depends on the URL and the segment alone; it is
/// named `url_pushed`. A segment that could make the text longer than the crate
/// keeps is left out, as the crate panics on it.
#[verifier::external_body]
pub(crate) fn url_push(url: &mut url::Url, segment: &str)
    requires
        push_fits(*old(url), segment@),
    ensures
        *final(url) == url_pushed(*old(url), segment@),
{
    if let Ok(mut segments) = url.path_segments_mut() {
        segments.push(segment);
    }
}

/// `Display` of a `ParseError`. Believed: the text depends on the error alone;
/// it is named `parse_error_text`.
#[verifier::external_body]
pub(crate) fn parse_error_to_string(error: &url::ParseError) -> (text: String)
    ensures
        text@ == parse_error_text(*error),
{
    error.to_string()
}

/// `ParseError::Overflow`, the error of the `url` crate for a text that is too
/// long. Nothing is claimed of it.
#[verifier::external_body]
pub(crate) fn url_overflow() -> url::ParseError {
    url::ParseError::Overflow
}

} // verus!
