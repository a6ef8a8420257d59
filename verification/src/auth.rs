//! Basic-authentication credentials on their own, without a base URL.

use vstd::prelude::*;

verus! {

/// A username/password pair for HTTP basic authentication, for callers
/// that supply the base URL separately from the credentials.
pub struct Auth {
    pub username: String,
    pub password: String,
}

impl Auth {
    /// Stores the two credential values; performs no validation.
    pub fn new(username: String, password: String) -> (r: Auth)
        ensures
            r.username@ == username@,
            r.password@ == password@,
    {
        Auth { username, password }
    }

    pub fn username(&self) -> (r: &str)
        ensures
            r@ == self.username@,
    {
        self.username.as_str()
    }

    pub fn password(&self) -> (r: &str)
        ensures
            r@ == self.password@,
    {
        self.password.as_str()
    }
}

} // verus!
