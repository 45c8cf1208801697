use vstd::prelude::*;

verus! {

/// The body of a login.
#[derive(Debug)]
pub struct LoginRequest {
    /// The name to log in with.
    pub username: String,
    /// The password to log in with.
    pub password: String,
}

} // verus!
