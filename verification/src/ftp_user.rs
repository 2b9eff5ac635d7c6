//! One configured credential.

use vstd::prelude::*;

verus! {

/// A user name with its password. An empty password means that none is
/// asked for.
#[derive(Debug)]
pub struct FtpUser {
    pub username: String,
    pub password: String,
}

/// A credential as text.
pub ghost struct Credential {
    pub name: Seq<char>,
    pub password: Seq<char>,
}

impl Credential {
    /// Whether logging in with this credential takes a password.
    pub open spec fn password_required(self) -> bool {
        self.password.len() > 0
    }
}

impl View for FtpUser {
    type V = Credential;

    open spec fn view(&self) -> Credential {
        Credential { name: self.username@, password: self.password@ }
    }
}

impl Clone for FtpUser {
    fn clone(&self) -> (r: Self)
        ensures
            r@ == self@,
    {
        FtpUser { username: self.username.clone(), password: self.password.clone() }
    }
}

} // verus!
