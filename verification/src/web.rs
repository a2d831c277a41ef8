//! Plain request payloads of the HTTP surface, and the web-dav identity.
//!
//! The HTTP frontend itself — routing, cookies, JSON — lives outside this
//! crate; these are the plain values it hands in and takes out.

use vstd::prelude::*;

verus! {

/// A login request: username and password.
pub struct LoginRequest {
    pub username: String,
    pub password: String,
}

/// Registers a named public key for the signed-in user.
pub struct AddPublicKeyRequest {
    pub name: String,
    pub key: String,
}

/// Removes the signed-in user's public key of that name.
pub struct RemovePublicKeyRequest {
    pub name: String,
}

/// An application for an account.
pub struct ApplicationRequest {
    pub username: String,
    pub email: String,
    pub about: String,
}

/// Claims an approved application with its token.
pub struct ClaimRequest {
    pub token: String,
    pub username: String,
    pub password: String,
}

/// Changes the signed-in user's password.
pub struct ChangePasswordRequest {
    pub old_password: String,
    pub new_password: String,
}

/// Sets the signed-in user's game-server username.
pub struct UpdateMinecraftUsernameRequest {
    pub username: String,
}

/// Names a record by its id.
pub struct IdRequest {
    pub id: String,
}

/// Names a record by its id and a username.
pub struct UsernameRequest {
    pub id: String,
    pub username: String,
}

/// The identity a web-dav request authenticated as, if any.
pub struct WebdavAuth(pub Option<String>);

impl WebdavAuth {
    /// The authenticated username, if any.
    pub fn username(&self) -> (r: Option<&String>)
        ensures
            match self.0 {
                Some(ref u) => r == Some(u),
                None => r is None,
            },
    {
        match &self.0 {
            Some(u) => Some(u),
            None => None,
        }
    }
}

} // verus!
