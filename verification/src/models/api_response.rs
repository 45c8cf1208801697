use crate::error::{api_error, UniFiError};
use crate::text::same_text;
use vstd::prelude::*;

verus! {

/// The envelope in which the controller wraps what it answers.
#[derive(Debug)]
pub struct ApiResponse<T> {
    /// How the call went.
    pub meta: ApiMeta,
    /// What the call gave, if anything.
    pub data: Option<T>,
}

/// How a call went.
#[derive(Debug)]
pub struct ApiMeta {
    /// The result code: `ok` for success.
    pub rc: String,
    /// The controller's words on a failure, if it has any.
    pub msg: Option<String>,
}

/// What an endpoint answers that has nothing to say.
#[derive(Debug)]
pub struct EmptyResponse {}

/// What a controller says when it refuses a call without a word.
pub open spec fn unknown_api_error() -> Seq<char> {
    "Unknown API error"@
}

impl ApiMeta {
    /// Whether the controller reports success.
    pub open spec fn spec_is_ok(&self) -> bool {
        self.rc@ == "ok"@
    }

    /// The controller's words on a failure, or `otherwise` if it has none.
    pub open spec fn spec_message(&self, otherwise: Seq<char>) -> Seq<char> {
        match self.msg {
            Some(text) => text@,
            None => otherwise,
        }
    }

    /// Tells whether the controller reports success.
    pub fn is_ok(&self) -> (yes: bool)
        ensures
            yes == self.spec_is_ok(),
    {
        same_text(self.rc.as_str(), "ok")
    }

    /// The controller's words on a failure, or `otherwise` if it has none.
    pub fn into_message(self, otherwise: &str) -> (text: String)
        ensures
            text@ == self.spec_message(otherwise@),
    {
        match self.msg {
            Some(text) => text,
            None => otherwise.to_owned(),
        }
    }
}

impl<T> ApiResponse<T> {
    /// What opening the envelope gives: the data, if the controller reports
    /// success, and else its words as an `ApiError`.
    pub open spec fn spec_into_data(self) -> Result<Option<T>, Seq<char>> {
        if self.meta.spec_is_ok() {
            Ok(self.data)
        } else {
            Err(self.meta.spec_message(unknown_api_error()))
        }
    }

    /// Opens the envelope: the data, which may be absent, if the controller
    /// reports success, and else an `ApiError` with the controller's words.
    pub fn into_data(self) -> (opened: Result<Option<T>, UniFiError>)
        ensures
            match self.spec_into_data() {
                Ok(data) => opened == Ok::<Option<T>, UniFiError>(data),
                Err(text) => api_error(opened, text),
            },
    {
        if self.meta.is_ok() {
            Ok(self.data)
        } else {
            Err(UniFiError::ApiError(self.meta.into_message("Unknown API error")))
        }
    }
}

} // verus!
