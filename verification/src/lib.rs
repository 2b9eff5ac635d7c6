//! A file-transfer server as a library: the session state machine, the
//! command and reply formats of the control connection, and the rule that
//! confines every path to the served directory.
//!
//! The library does no input or output. A session is told what happened on
//! the network and in the file store and answers what to do next; see
//! [`session`] and [`client`].

pub mod client;
pub mod client_command;
pub mod client_handler;
pub mod codec;
pub mod error;
pub mod ftp_config;
pub mod ftp_response;
pub mod ftp_response_code;
pub mod ftp_user;
pub mod listing;
pub mod path;
pub mod server;
pub mod session;
pub mod text;
pub mod utils;
