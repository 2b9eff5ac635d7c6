//! What one accepted connection is handed: the served directory and the
//! configuration.

use vstd::prelude::*;
use crate::client::Client;
use crate::ftp_config::FtpConfig;
use crate::ftp_response::Response;
use crate::server::{greeting, greeting_view};
use crate::session::SessionView;

verus! {

/// The served directory and the configuration for one connection.
#[derive(Debug)]
pub struct ClientHandler {
    pub server_root_dir: String,
    pub ftp_config: FtpConfig,
}

impl ClientHandler {
    /// Keeps the served directory and the configuration for a connection.
    pub fn new(server_root_dir: String, ftp_config: FtpConfig) -> (handler: Self)
        ensures
            handler.server_root_dir@ == server_root_dir@,
            handler.ftp_config@ == ftp_config@,
    {
        ClientHandler { server_root_dir, ftp_config }
    }

    /// The greeting to send before the first command is read.
    pub fn welcome_user(&self) -> (r: Response)
        ensures
            r@ == greeting_view(),
    {
        greeting()
    }

    /// The session of this connection, at its beginning.
    pub fn handle_client(&self) -> (client: Client)
        ensures
            client@ == SessionView::start(self.server_root_dir@, self.ftp_config@),
            client@.inv(),
    {
        Client::new(self.server_root_dir.clone(), self.ftp_config.clone())
    }
}

} // verus!
