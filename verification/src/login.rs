//! Login credentials.

use vstd::prelude::*;

use crate::text::{trim, trimmed};

verus! {

/// A user name and password.
pub struct UserpassCredentials {
    pub username: String,
    pub password: String,
}

impl UserpassCredentials {
    /// The credentials typed in: the user name line without surrounding
    /// whitespace, and the password as given.
    pub fn from_input(username_line: &str, password: String) -> (res: UserpassCredentials)
        ensures
            res.username@ == trimmed(username_line@),
            res.password == password,
    {
        UserpassCredentials { username: trim(username_line), password }
    }
}

} // verus!
