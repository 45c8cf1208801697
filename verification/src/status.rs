//! HTTP status codes, as the `http` crate holds them.

use vstd::prelude::*;

verus! {

/// `http::StatusCode`, an HTTP status code. Verus does not look inside: its
/// number is named `status_number`.
#[verifier::external_type_specification]
#[verifier::external_body]
pub struct ExStatusCode(http::StatusCode);

/// The number of a status code, such as 200 or 401.
pub uninterp spec fn status_number(status: http::StatusCode) -> u16;

/// How `http` prints the status with that number: the number, a space and the
/// canonical reason, such as `404 Not Found`.
pub uninterp spec fn status_line(number: u16) -> Seq<char>;

/// `StatusCode::as_u16`: hands out the number of the status code.
pub assume_specification[ http::StatusCode::as_u16 ](status: &http::StatusCode) -> (number: u16)
    ensures
        number == status_number(*status),
;

/// `StatusCode::is_success`. Believed, as the crate documents it: tells
/// whether the number is at least 200 and below 300.
pub assume_specification[ http::StatusCode::is_success ](status: &http::StatusCode) -> (yes: bool)
    ensures
        yes == (200 <= status_number(*status) < 300),
;

/// `Display` of a status code. Believed: the text depends on the number alone;
/// it is named `status_line`.
#[verifier::external_body]
pub(crate) fn status_to_string(status: &http::StatusCode) -> (line: String)
    ensures
        line@ == status_line(status_number(*status)),
{
    status.to_string()
}

} // verus!
