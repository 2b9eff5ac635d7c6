//! The acceptor: it owns what every session of a server shares.

use vstd::prelude::*;
use crate::client::Client;
use crate::ftp_config::FtpConfig;
use crate::ftp_response::{Response, ResponseView};
use crate::ftp_response_code::ResponseCode;
use crate::session::SessionView;

verus! {

/// A server: the directory it serves and its configuration. Each connection
/// that it accepts gets a session of its own; the sessions share nothing
/// that changes.
#[derive(Debug)]
pub struct Server {
    root_dir_server: String,
    ftp_config: FtpConfig,
}

/// The greeting: the service is ready, with a welcome.
pub open spec fn greeting_view() -> ResponseView {
    ResponseView {
        code: ResponseCode::ServiceReadyForNewUser,
        message: "Welcome to the FTP Server"@,
    }
}

/// The greeting sent when a client connects.
pub fn greeting() -> (r: Response)
    ensures
        r@ == greeting_view(),
{
    Response::new(ResponseCode::ServiceReadyForNewUser, "Welcome to the FTP Server")
}

impl Server {
    /// The directory that clients see as `/`.
    pub closed spec fn root(&self) -> Seq<char> {
        self.root_dir_server@
    }

    /// The configuration that the sessions read.
    pub closed spec fn config(&self) -> crate::ftp_config::ConfigView {
        self.ftp_config@
    }

    /// A server for the directory `root_dir_server` with this
    /// configuration.
    pub fn new(root_dir_server: String, ftp_config: FtpConfig) -> (server: Self)
        ensures
            server.root() == root_dir_server@,
            server.config() == ftp_config@,
    {
        Server { root_dir_server, ftp_config }
    }

    /// The directory that clients see as `/`.
    pub fn get_root_dir(&self) -> (r: String)
        ensures
            r@ == self.root(),
    {
        self.root_dir_server.clone()
    }

    /// The directory that a session of this server starts in: the root.
    /// Each session then keeps a working directory of its own, which it
    /// shows to the client as a path below `/`.
    pub fn get_curr_dir(&self) -> (r: String)
        ensures
            r@ == self.root(),
    {
        self.root_dir_server.clone()
    }

    /// The session for a connection that was just accepted: nobody is
    /// logged in yet, and it reads this server's root and configuration.
    pub fn session(&self) -> (client: Client)
        ensures
            client@ == SessionView::start(self.root(), self.config()),
            client@.inv(),
    {
        Client::new(self.root_dir_server.clone(), self.ftp_config.clone())
    }
}

} // verus!
