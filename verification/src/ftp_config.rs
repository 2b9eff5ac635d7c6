//! The configuration of a server: where it listens and who may log in.

use vstd::prelude::*;
use crate::ftp_user::{Credential, FtpUser};
use crate::text::same_text;

verus! {

/// The configuration that every session of a server reads. It is loaded once
/// and never changed.
#[derive(Debug)]
pub struct FtpConfig {
    pub port: u16,
    pub addr: String,
    pub admin: Option<FtpUser>,
    pub users: Vec<FtpUser>,
}

/// A configuration, with text in place of strings.
pub ghost struct ConfigView {
    pub port: u16,
    pub addr: Seq<char>,
    pub admin: Option<Credential>,
    pub users: Seq<Credential>,
}

/// The credentials of `users`.
pub open spec fn credentials(users: Seq<FtpUser>) -> Seq<Credential> {
    Seq::new(users.len(), |i: int| users[i]@)
}

/// The first of `users` whose name is `name`.
pub open spec fn first_user(users: Seq<Credential>, name: Seq<char>) -> Option<Credential>
    decreases users.len(),
{
    if users.len() == 0 {
        None
    } else if users[0].name == name {
        Some(users[0])
    } else {
        first_user(users.drop_first(), name)
    }
}

/// Whose credential the user name `name` selects.
pub ghost struct Identity {
    /// Whether it is the administrator's.
    pub is_admin: bool,
    pub credential: Credential,
}

impl ConfigView {
    /// The credential that the user name `name` selects: the
    /// administrator's where the name is theirs, else that of the first user
    /// of that name.
    pub open spec fn identify(self, name: Seq<char>) -> Option<Identity> {
        if self.admin is Some && self.admin->Some_0.name == name {
            Some(Identity { is_admin: true, credential: self.admin->Some_0 })
        } else {
            match first_user(self.users, name) {
                Some(c) => Some(Identity { is_admin: false, credential: c }),
                None => None,
            }
        }
    }
}

impl View for FtpConfig {
    type V = ConfigView;

    open spec fn view(&self) -> ConfigView {
        ConfigView {
            port: self.port,
            addr: self.addr@,
            admin: match self.admin {
                Some(a) => Some(a@),
                None => None,
            },
            users: credentials(self.users@),
        }
    }
}

impl Clone for FtpConfig {
    fn clone(&self) -> (r: Self)
        ensures
            r@ == self@,
    {
        let mut users: Vec<FtpUser> = Vec::new();
        let mut i: usize = 0;
        while i < self.users.len()
            invariant
                i <= self.users.len(),
                users.len() == i,
                forall|j: int| 0 <= j < i ==> users@[j]@ == self.users@[j]@,
            decreases self.users.len() - i,
        {
            users.push(self.users[i].clone());
            i += 1;
        }
        assert(credentials(users@) =~= credentials(self.users@));
        let admin = match &self.admin {
            Some(a) => Some(a.clone()),
            None => None,
        };
        FtpConfig { port: self.port, addr: self.addr.clone(), admin, users }
    }
}

impl FtpConfig {
    /// The configuration that is used, and written down, where none is
    /// found: no administrator, and the one user `admin` with the password
    /// `admin`.
    pub fn with_defaults(port: u16, addr: String) -> (r: Self)
        ensures
            r@ == (ConfigView {
                port,
                addr: addr@,
                admin: None,
                users: seq![Credential { name: "admin"@, password: "admin"@ }],
            }),
    {
        let mut users: Vec<FtpUser> = Vec::new();
        users.push(FtpUser { username: "admin".to_owned(), password: "admin".to_owned() });
        assert(credentials(users@) =~= seq![Credential { name: "admin"@, password: "admin"@ }]);
        FtpConfig { port, addr, admin: None, users }
    }

    /// The credential that the user name `name` selects, and whether it is
    /// the administrator's.
    pub fn identify(&self, name: &str) -> (r: Option<(bool, &FtpUser)>)
        ensures
            match self@.identify(name@) {
                Some(id) => r is Some && r->Some_0.0 == id.is_admin && r->Some_0.1@
                    == id.credential,
                None => r is None,
            },
    {
        if let Some(admin) = &self.admin {
            if same_text(admin.username.as_str(), name) {
                return Some((true, admin));
            }
        }
        let mut i: usize = 0;
        assert(credentials(self.users@).skip(0) =~= credentials(self.users@));
        while i < self.users.len()
            invariant
                i <= self.users.len(),
                !(self@.admin is Some && self@.admin->Some_0.name == name@),
                first_user(credentials(self.users@), name@) == first_user(
                    credentials(self.users@).skip(i as int),
                    name@,
                ),
            decreases self.users.len() - i,
        {
            let ghost rest = credentials(self.users@).skip(i as int);
            assert(rest[0] == self.users@[i as int]@);
            if same_text(self.users[i].username.as_str(), name) {
                return Some((false, &self.users[i]));
            }
            assert(rest.drop_first() =~= credentials(self.users@).skip(i + 1));
            i += 1;
        }
        assert(credentials(self.users@).skip(i as int).len() == 0);
        None
    }
}

} // verus!
