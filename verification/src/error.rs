//! What can go wrong while serving one command.

use vstd::prelude::*;
use crate::ftp_response::Response;
use crate::ftp_response_code::ResponseCode;

verus! {

/// A failure of one command. None of them ends the session: each becomes one
/// reply on the control connection.
#[derive(Debug)]
pub enum FtpError {
    /// The command line is malformed; the text says how.
    Msg(String),
    /// The command line is not UTF-8 text.
    Utf8,
    /// The file store or the network failed.
    Io,
    /// The path leaves the served tree, or names the protected file.
    PermissionDenied,
    /// The path names nothing in the served tree.
    NotFound,
    /// A transfer was asked for without a data channel.
    NoDataChannel,
    /// A data channel was asked for while one is open.
    DataChannelAlreadyOpen,
    /// No credential has the given user name.
    UnknownUser,
    /// The password does not match.
    WrongPassword,
}

impl FtpError {
    /// The code of the reply that reports this failure.
    pub open spec fn code(self) -> ResponseCode {
        match self {
            FtpError::Msg(_) => ResponseCode::InvalidParameterOrArgument,
            FtpError::Utf8 => ResponseCode::InvalidParameterOrArgument,
            FtpError::Io => ResponseCode::LocalErrorInProcessing,
            FtpError::PermissionDenied => ResponseCode::FileNotFound,
            FtpError::NotFound => ResponseCode::FileNotFound,
            FtpError::NoDataChannel => ResponseCode::ConnectionClosed,
            FtpError::DataChannelAlreadyOpen => ResponseCode::DataConnectionAlreadyOpen,
            FtpError::UnknownUser => ResponseCode::NotLoggedIn,
            FtpError::WrongPassword => ResponseCode::NotLoggedIn,
        }
    }

    /// The text that describes this failure.
    pub open spec fn text(self) -> Seq<char> {
        match self {
            FtpError::Msg(m) => m@,
            FtpError::Utf8 => "Command is not valid UTF-8"@,
            FtpError::Io => "Local error in processing"@,
            FtpError::PermissionDenied => "Permission denied"@,
            FtpError::NotFound => "No such file or directory"@,
            FtpError::NoDataChannel => "No opened data connection"@,
            FtpError::DataChannelAlreadyOpen => "Data connection already open"@,
            FtpError::UnknownUser => "Unknown User!"@,
            FtpError::WrongPassword => "Invalid Password"@,
        }
    }

    /// The text that describes this failure.
    pub fn message(&self) -> (s: String)
        ensures
            s@ == self.text(),
    {
        match self {
            FtpError::Msg(m) => m.clone(),
            FtpError::Utf8 => "Command is not valid UTF-8".to_owned(),
            FtpError::Io => "Local error in processing".to_owned(),
            FtpError::PermissionDenied => "Permission denied".to_owned(),
            FtpError::NotFound => "No such file or directory".to_owned(),
            FtpError::NoDataChannel => "No opened data connection".to_owned(),
            FtpError::DataChannelAlreadyOpen => "Data connection already open".to_owned(),
            FtpError::UnknownUser => "Unknown User!".to_owned(),
            FtpError::WrongPassword => "Invalid Password".to_owned(),
        }
    }

    /// The reply that reports this failure to the client.
    pub fn to_response(&self) -> (r: Response)
        ensures
            r.code == self.code(),
            r.message@ == self.text(),
    {
        let code = match self {
            FtpError::Msg(_) => ResponseCode::InvalidParameterOrArgument,
            FtpError::Utf8 => ResponseCode::InvalidParameterOrArgument,
            FtpError::Io => ResponseCode::LocalErrorInProcessing,
            FtpError::PermissionDenied => ResponseCode::FileNotFound,
            FtpError::NotFound => ResponseCode::FileNotFound,
            FtpError::NoDataChannel => ResponseCode::ConnectionClosed,
            FtpError::DataChannelAlreadyOpen => ResponseCode::DataConnectionAlreadyOpen,
            FtpError::UnknownUser => ResponseCode::NotLoggedIn,
            FtpError::WrongPassword => ResponseCode::NotLoggedIn,
        };
        Response { code, message: self.message() }
    }
}

} // verus!
