//! HTTP headers: the names that the controller uses, and header values as
//! the `http` crate holds them.

use vstd::prelude::*;
use vstd::utf8::{
    decode_utf8, decode_utf8_encode_utf8, encode_utf8, encode_utf8_decode_utf8,
    is_leading_byte_width_1, partial_valid_utf8_extend_ascii_block, valid_utf8,
};

verus! {

/// The name of the header that carries the CSRF token, on a login response and
/// on every request to a UniFi OS console.
pub const HEADER_CSRF_TOKEN: &'static str = "x-csrf-token";

/// The name of the response header by which a console rotates the CSRF token.
pub const HEADER_UPDATED_CSRF_TOKEN: &'static str = "x-updated-csrf-token";

/// The name of the response header that sets the session cookie.
pub const HEADER_SET_COOKIE: &'static str = "set-cookie";

/// `http::HeaderValue`, the value of an HTTP header. Verus does not look
/// inside: its bytes are named `header_bytes`.
#[verifier::external_type_specification]
#[verifier::external_body]
pub struct ExHeaderValue(http::HeaderValue);

/// `http::header::InvalidHeaderValue`, the error of `HeaderValue::from_str`.
#[verifier::external_type_specification]
#[verifier::external_body]
pub struct ExInvalidHeaderValue(http::header::InvalidHeaderValue);

/// `http::HeaderMap`, the headers of a request or of a response. Verus does not
/// look inside: what the headers hold under a name is named `header_first`.
#[verifier::external_type_specification]
#[verifier::external_body]
#[verifier::reject_recursive_types(T)]
pub struct ExHeaderMap<T>(http::HeaderMap<T>);

/// The first value that headers hold under a name, if they hold one.
pub uninterp spec fn header_first(
    headers: http::HeaderMap<http::HeaderValue>,
    name: Seq<char>,
) -> Option<http::HeaderValue>;

/// The bytes that a header value holds.
pub uninterp spec fn header_bytes(value: http::HeaderValue) -> Seq<u8>;

/// Whether a header value is marked as sensitive: as one that is kept out of
/// logs and of what `Debug` shows.
pub uninterp spec fn header_sensitive(value: http::HeaderValue) -> bool;

/// A byte that `http` accepts in a header value: anything but the control
/// characters, with the tab accepted.
pub open spec fn is_header_byte(b: u8) -> bool {
    b >= 32 && b != 127 || b == 9
}

/// A byte that `http` hands out as text: printable ASCII, or the tab.
pub open spec fn is_visible_byte(b: u8) -> bool {
    b >= 32 && b < 127 || b == 9
}

/// Whether each byte of a text is a header byte.
pub open spec fn is_header_text(text: Seq<char>) -> bool {
    forall|i: int| 0 <= i < encode_utf8(text).len() ==> is_header_byte(#[trigger] encode_utf8(text)[i])
}

/// Whether each byte of a header value is visible.
pub open spec fn is_visible(value: http::HeaderValue) -> bool {
    forall|i: int| 0 <= i < header_bytes(value).len() ==> is_visible_byte(#[trigger] header_bytes(value)[i])
}

/// The text of a header value, which it has if each of its bytes is visible.
pub open spec fn header_text(value: http::HeaderValue) -> Option<Seq<char>> {
    if is_visible(value) {
        Some(decode_utf8(header_bytes(value)))
    } else {
        None
    }
}

/// The text that headers hold under a name: that of the first value under the
/// name, if there is one and it is text.
pub open spec fn header_text_under(
    headers: http::HeaderMap<http::HeaderValue>,
    name: Seq<char>,
) -> Option<Seq<char>> {
    match header_first(headers, name) {
        Some(value) => header_text(value),
        None => None,
    }
}

/// Whether a header value carries a secret text: it holds the bytes of the
/// text, and is marked as sensitive.
pub open spec fn carries_secret(value: http::HeaderValue, text: Seq<char>) -> bool {
    header_bytes(value) == encode_utf8(text) && header_sensitive(value)
}

/// `HeaderMap::get`, with the name given as text. Believed, as the crate
/// documents it: hands out the first value that the headers hold under the
/// name, and nothing if they hold none; which value that is, is named
/// `header_first`.
#[verifier::external_body]
pub(crate) fn header_get<'a>(headers: &'a http::HeaderMap<http::HeaderValue>, name: &str) -> (value:
    Option<&'a http::HeaderValue>)
    ensures
        match value {
            Some(found) => header_first(*headers, name@) == Some(*found),
            None => header_first(*headers, name@) is None,
        },
{
    headers.get(name)
}

/// `HeaderValue::from_str`. Believed, as the crate's source has it: a text is
/// accepted if and only if each of its bytes is a header byte, and the value
/// then holds those bytes and is not marked as sensitive.
#[verifier::external_body]
pub(crate) fn header_from_str(text: &str) -> (made: Result<http::HeaderValue, http::header::InvalidHeaderValue>)
    ensures
        made is Ok <==> is_header_text(text@),
        made matches Ok(value) ==> header_bytes(value) == encode_utf8(text@) && !header_sensitive(
            value,
        ),
{
    http::HeaderValue::from_str(text)
}

/// `HeaderValue::set_sensitive`. Believed, as the crate's source has it: the
/// value is marked as sensitive, or as not, as it is told; the bytes stay.
#[verifier::external_body]
pub(crate) fn header_set_sensitive(value: &mut http::HeaderValue, sensitive: bool)
    ensures
        header_bytes(*final(value)) == header_bytes(*old(value)),
        header_sensitive(*final(value)) == sensitive,
{
    value.set_sensitive(sensitive)
}

/// `HeaderValue::to_str`. Believed, as the crate's source has it: the bytes
/// are handed out as text if and only if each of them is visible.
#[verifier::external_body]
pub(crate) fn header_to_str(value: &http::HeaderValue) -> (text: Option<&str>)
    ensures
        text is Some <==> is_visible(*value),
        text matches Some(t) ==> encode_utf8(t@) == header_bytes(*value),
{
    value.to_str().ok()
}

/// `Display` of the error of `HeaderValue::from_str`. Believed, as the crate's
/// source has it: always the same sentence.
#[verifier::external_body]
pub(crate) fn invalid_header_to_string(error: &http::header::InvalidHeaderValue) -> (text: String)
    ensures
        text@ == "failed to parse header value"@,
{
    error.to_string()
}

/// A header value that has a text can be made of that text again: the text is
/// header text, and its bytes are those of the value.
pub proof fn lemma_visible_value_is_header_text(value: http::HeaderValue)
    requires
        is_visible(value),
    ensures
        is_header_text(decode_utf8(header_bytes(value))),
        encode_utf8(decode_utf8(header_bytes(value))) == header_bytes(value),
{
    let bytes = header_bytes(value);
    assert forall|i: int| 0 <= i < bytes.len() implies #[trigger] is_leading_byte_width_1(
        bytes[i],
    ) by {
        assert(is_visible_byte(bytes[i]));
    }
    assert(valid_utf8(bytes.subrange(0, 0)));
    partial_valid_utf8_extend_ascii_block(bytes, 0, bytes.len() as int);
    assert(bytes.subrange(0, bytes.len() as int) == bytes);
    decode_utf8_encode_utf8(bytes);
}

/// Whether headers hold a value under a name.
pub fn has_header(headers: &http::HeaderMap<http::HeaderValue>, name: &str) -> (yes: bool)
    ensures
        yes == header_first(*headers, name@) is Some,
{
    header_get(headers, name).is_some()
}

/// The text that headers hold under a name: none if they hold no value under
/// the name, and none if the first value holds a byte that is not visible.
pub fn text_under<'a>(headers: &'a http::HeaderMap<http::HeaderValue>, name: &str) -> (text: Option<
    &'a str,
>)
    ensures
        text is Some == header_text_under(*headers, name@) is Some,
        text matches Some(t) ==> header_text_under(*headers, name@) == Some(t@) && is_header_text(
            t@,
        ),
{
    match header_get(headers, name) {
        Some(value) => {
            let text = header_to_str(value);
            proof {
                if let Some(t) = text {
                    encode_utf8_decode_utf8(t@);
                    lemma_visible_value_is_header_text(*value);
                }
            }
            text
        },
        None => None,
    }
}

} // verus!
