//! Password verification against a salted hash.
//!
//! The user directory stores a password hash in PHC string form; the gateway
//! verifies an offered password against it. The hash function itself runs in
//! the `argon2` crate behind a trusted wrapper; everything around it —
//! whether password authentication is allowed at all, and what a mismatch
//! means for the session — is decided in verified code.

use vstd::prelude::*;

verus! {

use argon2::PasswordVerifier;

/// What verifying `password` against the stored hash text `hash` yields:
/// `None` where the hash text is malformed or names an unsupported
/// algorithm, otherwise whether the password matches. A function of the two
/// texts alone.
pub uninterp spec fn password_check(password: Seq<char>, hash: Seq<char>) -> Option<bool>;

/// Relies on `argon2::Argon2::verify_password` with the default parameters:
/// it recomputes the hash of the password under the salt and parameters
/// carried inside the PHC hash string and compares, a deterministic function
/// of password and hash text; `Error::PasswordInvalid` means exactly that
/// the computed output differs.
#[verifier::external_body]
pub(crate) fn verify_password_hash(password: &str, hash: &str) -> (r: Option<bool>)
    ensures
        r == password_check(password@, hash@),
{
    match argon2::Argon2::default().verify_password(password.as_bytes(), hash) {
        Ok(()) => Some(true),
        Err(argon2::password_hash::Error::PasswordInvalid) => Some(false),
        Err(_) => None,
    }
}

} // verus!
