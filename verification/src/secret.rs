//! Secrets: the password and the CSRF token, kept by the `secrecy` crate.

use secrecy::ExposeSecret;
use vstd::prelude::*;

verus! {

/// A string held in a `secrecy::SecretString`: wiped when dropped, and never
/// shown by `Debug`.
///
/// Verus does not look inside; what it holds is `secret_text`.
#[verifier::external_body]
#[derive(Debug)]
pub struct Secret {
    inner: secrecy::SecretString,
}

/// The characters that a secret holds.
pub uninterp spec fn secret_text(s: Secret) -> Seq<char>;

/// `SecretString::from(String)`. Believed: the secret holds exactly the string
/// it was made of.
#[verifier::external_body]
pub(crate) fn secret_from_string(text: String) -> (secret: Secret)
    ensures
        secret_text(secret) == text@,
{
    Secret { inner: secrecy::SecretString::from(text) }
}

/// `ExposeSecret::expose_secret`: hands out the string that the secret holds.
#[verifier::external_body]
pub(crate) fn secret_expose(secret: &Secret) -> (text: &str)
    ensures
        text@ == secret_text(*secret),
{
    secret.inner.expose_secret()
}

/// `Clone` of a `SecretString`. Believed: the copy holds the same string.
#[verifier::external_body]
pub(crate) fn secret_clone(secret: &Secret) -> (copy: Secret)
    ensures
        secret_text(copy) == secret_text(*secret),
{
    Secret { inner: secret.inner.clone() }
}

} // verus!
