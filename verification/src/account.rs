//! The account configuration: credentials plus the API's base URL.

use vstd::prelude::*;

verus! {

/// Credentials and base URL for one API account.
///
/// The base URL is only required to be a parseable absolute URL at the time
/// a request is composed, not at construction: building an `Account` never
/// fails.
pub struct Account {
    pub username: String,
    pub password: String,
    pub base_url: String,
}

impl Account {
    /// Stores the three configuration values; performs no validation.
    pub fn new(username: String, password: String, base_url: String) -> (r: Account)
        ensures
            r.username@ == username@,
            r.password@ == password@,
            r.base_url@ == base_url@,
    {
        Account { username, password, base_url }
    }

    pub fn username(&self) -> (r: &str)
        ensures
            r@ == self.username@,
    {
        self.username.as_str()
    }

    pub fn password(&self) -> (r: &str)
        ensures
            r@ == self.password@,
    {
        self.password.as_str()
    }

    pub fn base_url(&self) -> (r: &str)
        ensures
            r@ == self.base_url@,
    {
        self.base_url.as_str()
    }
}

} // verus!
