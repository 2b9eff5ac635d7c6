//! The reply codes of the control connection.

use vstd::prelude::*;

verus! {

/// A reply code. The hundreds digit gives its class: 1 positive preliminary,
/// 2 positive completion, 3 positive intermediate, 4 transient negative,
/// 5 permanent negative.
#[allow(non_camel_case_types)]
#[derive(Debug, Clone, Copy, PartialEq, Eq, Structural)]
pub enum ResponseCode {
    RestartMarkerReply,
    ServiceReadInXXXMinutes,
    DataConnectionAlreadyOpen,
    FileStatusOk,
    Okay,
    CommandNotImplementedSuperfluousAtThisSite,
    SystemStatus,
    DirectoryStatus,
    FileStatus,
    HelpMessage,
    SystemType,
    ServiceReadyForNewUser,
    ServiceClosingControlConnection,
    DataConnectionOpen,
    ClosingDataConnection,
    EnteringPassiveMode,
    UserLoggedIn,
    RequestedFileActionOkay,
    PATHNAMECreated,
    UserNameOkayNeedPassword,
    NeedAccountForLogin,
    RequestedFileActionPendingFurtherInformation,
    ServiceNotAvailable,
    CantOpenDataConnection,
    ConnectionClosed,
    FileBusy,
    LocalErrorInProcessing,
    InsufficientStorageSpace,
    UnknownCommand,
    InvalidParameterOrArgument,
    CommandNotImplemented,
    BadSequenceOfCommands,
    CommandNotImplementedForThatParameter,
    NotLoggedIn,
    NeedAccountForStoringFiles,
    FileNotFound,
    PageTypeUnknown,
    ExceededStorageAllocation,
    FileNameNotAllowed,
}

/// The four bytes of `v`, most significant first.
pub open spec fn be_bytes(v: u32) -> Seq<u8> {
    seq![
        (v / 0x100_0000) as u8,
        (v / 0x1_0000 % 0x100) as u8,
        (v / 0x100 % 0x100) as u8,
        (v % 0x100) as u8,
    ]
}

impl ResponseCode {
    /// The three-digit number sent on the wire.
    pub open spec fn value(self) -> u32 {
        match self {
            ResponseCode::RestartMarkerReply => 110,
            ResponseCode::ServiceReadInXXXMinutes => 120,
            ResponseCode::DataConnectionAlreadyOpen => 125,
            ResponseCode::FileStatusOk => 150,
            ResponseCode::Okay => 200,
            ResponseCode::CommandNotImplementedSuperfluousAtThisSite => 202,
            ResponseCode::SystemStatus => 211,
            ResponseCode::DirectoryStatus => 212,
            ResponseCode::FileStatus => 213,
            ResponseCode::HelpMessage => 214,
            ResponseCode::SystemType => 215,
            ResponseCode::ServiceReadyForNewUser => 220,
            ResponseCode::ServiceClosingControlConnection => 221,
            ResponseCode::DataConnectionOpen => 225,
            ResponseCode::ClosingDataConnection => 226,
            ResponseCode::EnteringPassiveMode => 227,
            ResponseCode::UserLoggedIn => 230,
            ResponseCode::RequestedFileActionOkay => 250,
            ResponseCode::PATHNAMECreated => 257,
            ResponseCode::UserNameOkayNeedPassword => 331,
            ResponseCode::NeedAccountForLogin => 332,
            ResponseCode::RequestedFileActionPendingFurtherInformation => 350,
            ResponseCode::ServiceNotAvailable => 421,
            ResponseCode::CantOpenDataConnection => 425,
            ResponseCode::ConnectionClosed => 426,
            ResponseCode::FileBusy => 450,
            ResponseCode::LocalErrorInProcessing => 451,
            ResponseCode::InsufficientStorageSpace => 452,
            ResponseCode::UnknownCommand => 500,
            ResponseCode::InvalidParameterOrArgument => 501,
            ResponseCode::CommandNotImplemented => 502,
            ResponseCode::BadSequenceOfCommands => 503,
            ResponseCode::CommandNotImplementedForThatParameter => 504,
            ResponseCode::NotLoggedIn => 530,
            ResponseCode::NeedAccountForStoringFiles => 532,
            ResponseCode::FileNotFound => 550,
            ResponseCode::PageTypeUnknown => 551,
            ResponseCode::ExceededStorageAllocation => 552,
            ResponseCode::FileNameNotAllowed => 553,
        }
    }

    /// The class of the code: its hundreds digit.
    pub open spec fn class(self) -> int {
        self.value() as int / 100
    }

    /// The three-digit number sent on the wire.
    pub fn number(&self) -> (n: u32)
        ensures
            n == self.value(),
            100 <= n <= 999,
    {
        match self {
            ResponseCode::RestartMarkerReply => 110,
            ResponseCode::ServiceReadInXXXMinutes => 120,
            ResponseCode::DataConnectionAlreadyOpen => 125,
            ResponseCode::FileStatusOk => 150,
            ResponseCode::Okay => 200,
            ResponseCode::CommandNotImplementedSuperfluousAtThisSite => 202,
            ResponseCode::SystemStatus => 211,
            ResponseCode::DirectoryStatus => 212,
            ResponseCode::FileStatus => 213,
            ResponseCode::HelpMessage => 214,
            ResponseCode::SystemType => 215,
            ResponseCode::ServiceReadyForNewUser => 220,
            ResponseCode::ServiceClosingControlConnection => 221,
            ResponseCode::DataConnectionOpen => 225,
            ResponseCode::ClosingDataConnection => 226,
            ResponseCode::EnteringPassiveMode => 227,
            ResponseCode::UserLoggedIn => 230,
            ResponseCode::RequestedFileActionOkay => 250,
            ResponseCode::PATHNAMECreated => 257,
            ResponseCode::UserNameOkayNeedPassword => 331,
            ResponseCode::NeedAccountForLogin => 332,
            ResponseCode::RequestedFileActionPendingFurtherInformation => 350,
            ResponseCode::ServiceNotAvailable => 421,
            ResponseCode::CantOpenDataConnection => 425,
            ResponseCode::ConnectionClosed => 426,
            ResponseCode::FileBusy => 450,
            ResponseCode::LocalErrorInProcessing => 451,
            ResponseCode::InsufficientStorageSpace => 452,
            ResponseCode::UnknownCommand => 500,
            ResponseCode::InvalidParameterOrArgument => 501,
            ResponseCode::CommandNotImplemented => 502,
            ResponseCode::BadSequenceOfCommands => 503,
            ResponseCode::CommandNotImplementedForThatParameter => 504,
            ResponseCode::NotLoggedIn => 530,
            ResponseCode::NeedAccountForStoringFiles => 532,
            ResponseCode::FileNotFound => 550,
            ResponseCode::PageTypeUnknown => 551,
            ResponseCode::ExceededStorageAllocation => 552,
            ResponseCode::FileNameNotAllowed => 553,
        }
    }

    /// The code as a 32-bit number in network byte order.
    pub fn to_bytes(self) -> (bytes: Vec<u8>)
        ensures
            bytes@ == be_bytes(self.value()),
    {
        let n: u32 = self.number();
        let mut bytes: Vec<u8> = Vec::new();
        bytes.push((n / 0x100_0000) as u8);
        bytes.push((n / 0x1_0000 % 0x100) as u8);
        bytes.push((n / 0x100 % 0x100) as u8);
        bytes.push((n % 0x100) as u8);
        bytes
    }
}

} // verus!
