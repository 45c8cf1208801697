//! Errors.

use vstd::prelude::*;

verus! {

/// `reqwest::Error`, the failure of the HTTP transport. It is carried through
/// as the transport reports it; nothing is claimed of it.
#[verifier::external_type_specification]
#[verifier::external_body]
pub struct ExTransportError(reqwest::Error);

/// `serde_json::Error`, the failure to read or write JSON. It is carried
/// through as `serde_json` reports it; nothing is claimed of it.
#[verifier::external_type_specification]
#[verifier::external_body]
pub struct ExJsonError(serde_json::Error);

/// What can go wrong when talking to a UniFi controller.
#[derive(Debug)]
pub enum UniFiError {
    /// The controller refused the login.
    AuthenticationError(String),
    /// The controller answered, but with an error.
    ApiError(String),
    /// The request did not get through.
    HttpError(reqwest::Error),
    /// A URL could not be built.
    UrlParseError(url::ParseError),
    /// The endpoint is not a plain path.
    InvalidEndpoint(String),
    /// JSON could not be read or written.
    SerializationError(serde_json::Error),
    /// The session could not be established, even after logging in again.
    NotAuthenticated,
    /// No site of that name or id.
    SiteNotFound(String),
    /// The client was configured with something unusable.
    ConfigurationError(String),
}

pub type UniFiResult<T> = Result<T, UniFiError>;

/// Whether a result is an `ApiError` that says `text`.
pub open spec fn api_error<T>(result: Result<T, UniFiError>, text: Seq<char>) -> bool {
    result matches Err(UniFiError::ApiError(said)) && said@ == text
}

/// Whether a result is an `AuthenticationError` that says `text`.
pub open spec fn authentication_error<T>(result: Result<T, UniFiError>, text: Seq<char>) -> bool {
    result matches Err(UniFiError::AuthenticationError(said)) && said@ == text
}

/// Whether a result is a `ConfigurationError` that says `text`.
pub open spec fn configuration_error<T>(result: Result<T, UniFiError>, text: Seq<char>) -> bool {
    result matches Err(UniFiError::ConfigurationError(said)) && said@ == text
}

/// Whether a result is an `InvalidEndpoint` that says `text`.
pub open spec fn invalid_endpoint<T>(result: Result<T, UniFiError>, text: Seq<char>) -> bool {
    result matches Err(UniFiError::InvalidEndpoint(said)) && said@ == text
}

/// Whether a result is a `SiteNotFound` that names `text`.
pub open spec fn site_not_found<T>(result: Result<T, UniFiError>, text: Seq<char>) -> bool {
    result matches Err(UniFiError::SiteNotFound(said)) && said@ == text
}

} // verus!
