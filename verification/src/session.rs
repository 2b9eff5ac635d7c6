//! The state machine of one session: for each state and each event, the
//! next state and what to do.
//!
//! A session never touches the network or the file store. It is told what
//! happened, as an [`Event`], and answers with a [`Step`]: the reply to send
//! on the control connection, whether to close the data channel, and the
//! one thing to do next. Whoever drives the session does that thing and
//! comes back with its outcome.

use vstd::prelude::*;
use crate::client_command::{parse, CommandView, DataTransferType};
use crate::error::FtpError;
use crate::ftp_config::ConfigView;
use crate::ftp_response::{Response, ResponseView};
use crate::ftp_response_code::ResponseCode;
use crate::listing::{
    infos, is_protected, lemma_admin_sees_all, lemma_protected_hidden, listing_bytes, visible,
    FileInfo, FileInfoView,
};
use crate::path::{
    confined, file_name_of, has_parent_dir, is_absolute, join_paths, lemma_join_name,
    lemma_segments_plain, lemma_segments_rooted, lemma_under_root, names_below, parent_dir,
    parent_of, plain_name, resolution, rooted, segments, under_root, within,
};
use crate::text::decimal;
use crate::utils::{rest_after_word, slash_prefixed};

verus! {

/// The most bytes moved in one piece of a transfer.
pub const CHUNK_SIZE: usize = 8192;

/// What a resolved path names.
#[derive(Debug, Clone, Copy, PartialEq, Eq, Structural)]
pub enum EntryKind {
    File,
    Directory,
    Other,
}

/// A path as the file store resolved it, with links and `..` followed, and
/// what it names.
#[derive(Debug)]
pub struct Resolved {
    pub path: String,
    pub kind: EntryKind,
}

/// A resolved path, with text in place of the string.
pub ghost struct ResolvedView {
    pub path: Seq<char>,
    pub kind: EntryKind,
}

impl View for Resolved {
    type V = ResolvedView;

    open spec fn view(&self) -> ResolvedView {
        ResolvedView { path: self.path@, kind: self.kind }
    }
}

/// What happened: the outcome of the last [`Request`].
#[derive(Debug)]
pub enum Event {
    /// A line arrived on the control connection; it is given without its
    /// line ending.
    Line(String),
    /// The control connection is closed or broken.
    Disconnected,
    /// The store resolved the path, or could not.
    Resolved(Option<Resolved>),
    /// The passive listener is bound to this port, or could not be bound.
    Listening(Option<u16>),
    /// The data channel is connected: a peer came to the passive listener,
    /// or the client was reached at its port. Or it is not.
    Connected(bool),
    /// The store gave these entries, or failed; with the moment of the
    /// report in seconds since the Unix epoch.
    Entries(Option<Vec<FileInfo>>, i64),
    /// These bytes were read, none at the end of the stream; or reading
    /// failed.
    Chunk(Option<Vec<u8>>),
    /// The work is done, or failed.
    Done(bool),
}

/// An event, with text in place of strings.
pub ghost enum EventView {
    Line(Seq<char>),
    Disconnected,
    Resolved(Option<ResolvedView>),
    Listening(Option<u16>),
    Connected(bool),
    Entries(Option<Seq<FileInfoView>>, i64),
    Chunk(Option<Seq<u8>>),
    Done(bool),
}

impl View for Event {
    type V = EventView;

    open spec fn view(&self) -> EventView {
        match self {
            Event::Line(l) => EventView::Line(l@),
            Event::Disconnected => EventView::Disconnected,
            Event::Resolved(r) => EventView::Resolved(
                match r {
                    Some(r) => Some(r@),
                    None => None,
                },
            ),
            Event::Listening(p) => EventView::Listening(*p),
            Event::Connected(ok) => EventView::Connected(*ok),
            Event::Entries(e, now) => EventView::Entries(
                match e {
                    Some(v) => Some(infos(v@)),
                    None => None,
                },
                *now,
            ),
            Event::Chunk(c) => EventView::Chunk(
                match c {
                    Some(v) => Some(v@),
                    None => None,
                },
            ),
            Event::Done(ok) => EventView::Done(*ok),
        }
    }
}

/// The one thing to do next. Each request but `Close` is answered by an
/// [`Event`].
#[derive(Debug)]
pub enum Request {
    /// Read the next line of the control connection: `Line` or
    /// `Disconnected`.
    ReadCommand,
    /// Resolve the path in the store, following links and `..`, and see
    /// what it names: `Resolved`.
    Resolve(String),
    /// Bind a listener for the data channel to this port, 0 for any:
    /// `Listening`.
    Listen(u16),
    /// Accept one peer on the listener, keep it as the data channel and
    /// drop the listener: `Connected`.
    Accept,
    /// Connect to this port at the client's address and keep the connection
    /// as the data channel: `Connected`.
    Connect(u16),
    /// Report the entries of the directory: `Entries`.
    ListDirectory(String),
    /// Report the one entry at the path: `Entries`.
    Inspect(String),
    /// Open the file for reading: `Done`.
    OpenFile(String),
    /// Read at most this many bytes of the open file: `Chunk`.
    ReadFile(usize),
    /// Write the bytes to the data channel: `Done`.
    Send(Vec<u8>),
    /// Read at most this many bytes from the data channel: `Chunk`.
    Receive(usize),
    /// Create or overwrite the file with the bytes: `Done`.
    WriteFile(String, Vec<u8>),
    /// Create the directory: `Done`.
    CreateDir(String),
    /// Remove the directory and all below it: `Done`.
    RemoveDir(String),
    /// End the session.
    Close,
}

/// A request, with text in place of strings.
pub ghost enum RequestView {
    ReadCommand,
    Resolve(Seq<char>),
    Listen(u16),
    Accept,
    Connect(u16),
    ListDirectory(Seq<char>),
    Inspect(Seq<char>),
    OpenFile(Seq<char>),
    ReadFile(usize),
    Send(Seq<u8>),
    Receive(usize),
    WriteFile(Seq<char>, Seq<u8>),
    CreateDir(Seq<char>),
    RemoveDir(Seq<char>),
    Close,
}

impl View for Request {
    type V = RequestView;

    open spec fn view(&self) -> RequestView {
        match self {
            Request::ReadCommand => RequestView::ReadCommand,
            Request::Resolve(p) => RequestView::Resolve(p@),
            Request::Listen(port) => RequestView::Listen(*port),
            Request::Accept => RequestView::Accept,
            Request::Connect(port) => RequestView::Connect(*port),
            Request::ListDirectory(p) => RequestView::ListDirectory(p@),
            Request::Inspect(p) => RequestView::Inspect(p@),
            Request::OpenFile(p) => RequestView::OpenFile(p@),
            Request::ReadFile(n) => RequestView::ReadFile(*n),
            Request::Send(b) => RequestView::Send(b@),
            Request::Receive(n) => RequestView::Receive(*n),
            Request::WriteFile(p, b) => RequestView::WriteFile(p@, b@),
            Request::CreateDir(p) => RequestView::CreateDir(p@),
            Request::RemoveDir(p) => RequestView::RemoveDir(p@),
            Request::Close => RequestView::Close,
        }
    }
}

/// What the session answers to an event.
#[derive(Debug)]
pub struct Step {
    /// The reply to send on the control connection first, if any.
    pub reply: Option<Response>,
    /// Whether to close the data channel, both directions, after the reply.
    pub close_data: bool,
    /// What to do after that.
    pub request: Request,
}

/// A step, with text in place of strings.
pub ghost struct StepView {
    pub reply: Option<ResponseView>,
    pub close_data: bool,
    pub request: RequestView,
}

impl View for Step {
    type V = StepView;

    open spec fn view(&self) -> StepView {
        StepView {
            reply: match self.reply {
                Some(r) => Some(r@),
                None => None,
            },
            close_data: self.close_data,
            request: self.request@,
        }
    }
}

/// What a session is in the middle of.
#[derive(Debug)]
pub enum Pending {
    /// Nothing: the next event is a line.
    Idle,
    /// `CWD` to the directory as the client wrote it: the path is being
    /// resolved.
    Cwd(String),
    /// `PASV`: the listener is being bound.
    Listen,
    /// `PASV`: a peer is awaited.
    Accept,
    /// `LIST`: the path is being resolved.
    ListResolve,
    /// `LIST` of this resolved path, a directory or not: the client is being
    /// connected to.
    ListConnect(String, bool),
    /// `LIST`: the entries are being read.
    ListEntries,
    /// `LIST`: the listing is being sent.
    ListSend,
    /// `RETR`: the path is being resolved.
    RetrResolve,
    /// `RETR` of this resolved file: the client is being connected to.
    RetrConnect(String),
    /// `RETR`: the file is being opened.
    RetrOpen,
    /// `RETR`: a piece of the file is being read.
    RetrRead,
    /// `RETR`: a piece of the file is being sent.
    RetrSend,
    /// `STOR` of a file of this name: its directory is being resolved.
    StorResolve(String),
    /// `STOR` to this path below a resolved directory: the client is being
    /// connected to.
    StorConnect(String),
    /// `STOR` to this path, with the bytes received so far: more are being
    /// received.
    StorReceive(String, Vec<u8>),
    /// `STOR`: the file is being written.
    StorWrite,
    /// `MKD` of a directory of this name: its parent is being resolved.
    MkdResolve(String),
    /// `MKD`: the directory is being created.
    MkdCreate,
    /// `RMD`: the path is being resolved.
    RmdResolve,
    /// `RMD`: the directory is being removed.
    RmdRemove,
    /// The session has ended.
    Closed,
}

/// What a session is in the middle of, with text in place of strings.
pub ghost enum PendingView {
    Idle,
    Cwd(Seq<char>),
    Listen,
    Accept,
    ListResolve,
    ListConnect(Seq<char>, bool),
    ListEntries,
    ListSend,
    RetrResolve,
    RetrConnect(Seq<char>),
    RetrOpen,
    RetrRead,
    RetrSend,
    StorResolve(Seq<char>),
    StorConnect(Seq<char>),
    StorReceive(Seq<char>, Seq<u8>),
    StorWrite,
    MkdResolve(Seq<char>),
    MkdCreate,
    RmdResolve,
    RmdRemove,
    Closed,
}

impl View for Pending {
    type V = PendingView;

    open spec fn view(&self) -> PendingView {
        match self {
            Pending::Idle => PendingView::Idle,
            Pending::Cwd(d) => PendingView::Cwd(d@),
            Pending::Listen => PendingView::Listen,
            Pending::Accept => PendingView::Accept,
            Pending::ListResolve => PendingView::ListResolve,
            Pending::ListConnect(p, is_dir) => PendingView::ListConnect(p@, *is_dir),
            Pending::ListEntries => PendingView::ListEntries,
            Pending::ListSend => PendingView::ListSend,
            Pending::RetrResolve => PendingView::RetrResolve,
            Pending::RetrConnect(p) => PendingView::RetrConnect(p@),
            Pending::RetrOpen => PendingView::RetrOpen,
            Pending::RetrRead => PendingView::RetrRead,
            Pending::RetrSend => PendingView::RetrSend,
            Pending::StorResolve(n) => PendingView::StorResolve(n@),
            Pending::StorConnect(p) => PendingView::StorConnect(p@),
            Pending::StorReceive(p, b) => PendingView::StorReceive(p@, b@),
            Pending::StorWrite => PendingView::StorWrite,
            Pending::MkdResolve(n) => PendingView::MkdResolve(n@),
            Pending::MkdCreate => PendingView::MkdCreate,
            Pending::RmdResolve => PendingView::RmdResolve,
            Pending::RmdRemove => PendingView::RmdRemove,
            Pending::Closed => PendingView::Closed,
        }
    }
}

/// The state of one session.
pub ghost struct SessionView {
    /// The working directory, as the client sees it.
    pub cwd: Seq<char>,
    /// The directory of the store that the client sees as `/`.
    pub root: Seq<char>,
    pub config: ConfigView,
    /// The user name given, once it is known.
    pub name: Option<Seq<char>>,
    /// Whether the password of that user is still owed.
    pub waiting_password: bool,
    pub is_admin: bool,
    pub transfer_type: DataTransferType,
    /// The port of the last `PORT` command.
    pub data_port: Option<u16>,
    /// Whether the data channel is open.
    pub data_open: bool,
    pub pending: PendingView,
}

/// A reply with this code and message.
pub open spec fn reply(code: ResponseCode, message: Seq<char>) -> Option<ResponseView> {
    Some(ResponseView { code, message })
}

/// Whether the session is in the middle of a transfer that uses the data
/// channel.
pub open spec fn uses_channel(pending: PendingView) -> bool {
    pending is ListEntries || pending is ListSend || pending is RetrOpen || pending is RetrRead
        || pending is RetrSend || pending is StorReceive || pending is StorWrite
}

/// Whether the session is in the middle of a transfer whose path is being
/// resolved.
pub open spec fn resolves_for_transfer(pending: PendingView) -> bool {
    pending is ListResolve || pending is RetrResolve || pending is StorResolve
}

/// Whether the session waits for the client to be connected to.
pub open spec fn connects(pending: PendingView) -> bool {
    pending is ListConnect || pending is RetrConnect || pending is StorConnect
}

/// Whether the session is in the middle of a transfer.
pub open spec fn in_transfer(pending: PendingView) -> bool {
    uses_channel(pending) || resolves_for_transfer(pending) || connects(pending)
}

/// The request for the entries of a resolved path: those of the directory,
/// or the one of the file.
pub open spec fn entries_request(path: Seq<char>, is_dir: bool) -> RequestView {
    if is_dir {
        RequestView::ListDirectory(path)
    } else {
        RequestView::Inspect(path)
    }
}

/// The path that `LIST` is about: the argument without a leading flag. A
/// flag is a first word that starts with `-`; no flag changes the listing.
pub open spec fn list_path(arg: Option<Seq<char>>) -> Seq<char> {
    match arg {
        None => Seq::<char>::empty(),
        Some(a) => if a.len() > 0 && a[0] == '-' {
            rest_after_word(a)
        } else {
            a
        },
    }
}

/// The working directory after `CDUP`: without its last name, and `/`
/// where it has none.
pub open spec fn cdup(cwd: Seq<char>) -> Seq<char> {
    match parent_of(cwd) {
        Some(p) => slash_prefixed(p),
        None => cwd,
    }
}

/// The payload of the reply to `PASV` for a listener on `port`: an address
/// of zeros, then the high and the low byte of the port.
pub open spec fn passive_message(port: u16) -> Seq<char> {
    "Entering Passive Mode (0,0,0,0,"@ + decimal((port / 256) as nat) + ","@ + decimal(
        (port % 256) as nat,
    ) + ")."@
}

impl SessionView {
    /// The state of a session that has just begun.
    pub open spec fn start(root: Seq<char>, config: ConfigView) -> SessionView {
        SessionView {
            cwd: seq!['/'],
            root,
            config,
            name: None,
            waiting_password: false,
            is_admin: false,
            transfer_type: DataTransferType::ASCII,
            data_port: None,
            data_open: false,
            pending: PendingView::Idle,
        }
    }

    /// Whether a user name is known and its password, if any, was given.
    pub open spec fn is_logged_in(self) -> bool {
        self.name is Some && !self.waiting_password
    }

    /// Reply, and read the next command.
    pub open spec fn say(self, code: ResponseCode, message: Seq<char>) -> (SessionView, StepView) {
        (
            SessionView { pending: PendingView::Idle, ..self },
            StepView {
                reply: reply(code, message),
                close_data: false,
                request: RequestView::ReadCommand,
            },
        )
    }

    /// Report a failure, and read the next command.
    pub open spec fn refuse(self, e: FtpError) -> (SessionView, StepView) {
        self.say(e.code(), e.text())
    }

    /// Ask for something without a reply.
    pub open spec fn ask(self, pending: PendingView, request: RequestView) -> (
        SessionView,
        StepView,
    ) {
        (SessionView { pending, ..self }, StepView { reply: None, close_data: false, request })
    }

    /// Reply, then ask for something.
    pub open spec fn say_and_ask(
        self,
        code: ResponseCode,
        message: Seq<char>,
        pending: PendingView,
        request: RequestView,
    ) -> (SessionView, StepView) {
        (
            SessionView { pending, ..self },
            StepView { reply: reply(code, message), close_data: false, request },
        )
    }

    /// End a transfer: reply, close the data channel if it is open, and read
    /// the next command.
    pub open spec fn finish(self, code: ResponseCode, message: Seq<char>) -> (
        SessionView,
        StepView,
    ) {
        (
            SessionView { data_open: false, pending: PendingView::Idle, ..self },
            StepView {
                reply: reply(code, message),
                close_data: self.data_open,
                request: RequestView::ReadCommand,
            },
        )
    }

    /// End a transfer with a failure.
    pub open spec fn abort(self, e: FtpError) -> (SessionView, StepView) {
        self.finish(e.code(), e.text())
    }

    /// The path in the store that the client's path `p` stands for, before
    /// the store resolves it: `p` is read from the working directory unless
    /// it is absolute, and then from the root of the store.
    pub open spec fn target(self, p: Seq<char>) -> Seq<char> {
        under_root(self.root, join_paths(self.cwd, p))
    }

    /// What resolving a path comes to, given what the store made of it: not
    /// found where the store resolved nothing, denied where it resolved to a
    /// path that does not lie below the root, else what the store found.
    pub open spec fn resolution(self, r: Option<ResolvedView>) -> Result<ResolvedView, FtpError> {
        match r {
            None => Err(FtpError::NotFound),
            Some(found) => match resolution(self.root, Some(found.path)) {
                Ok(_) => Ok(found),
                Err(e) => Err(e),
            },
        }
    }

    /// Whether the session may read or overwrite the path.
    pub open spec fn may_touch(self, p: Seq<char>) -> bool {
        self.is_admin || !is_protected(self.root, p)
    }

    /// `USER`: an empty name is refused and changes nothing. A name that
    /// selects a credential becomes the identity, logged in at once where no
    /// password is required. Any other name leaves no identity.
    pub open spec fn user(self, name: Seq<char>) -> (SessionView, StepView) {
        if name.len() == 0 {
            self.say(ResponseCode::InvalidParameterOrArgument, "Invalid Username"@)
        } else {
            match self.config.identify(name) {
                Some(id) => {
                    let next = SessionView {
                        name: Some(name),
                        is_admin: id.is_admin,
                        waiting_password: id.credential.password_required(),
                        ..self
                    };
                    if id.credential.password_required() {
                        next.say(
                            ResponseCode::UserNameOkayNeedPassword,
                            "Provide password for "@ + name,
                        )
                    } else {
                        next.say(ResponseCode::UserLoggedIn, "Welcome "@ + name + "!"@)
                    }
                },
                None => SessionView {
                    name: None,
                    is_admin: false,
                    waiting_password: false,
                    ..self
                }.refuse(FtpError::UnknownUser),
            }
        }
    }

    /// `PASS` while a password is owed: the right one logs in, any other
    /// leaves no identity.
    pub open spec fn pass(self, password: Seq<char>) -> (SessionView, StepView) {
        let id = self.config.identify(self.name->Some_0);
        if id is Some && id->Some_0.credential.password == password {
            SessionView { waiting_password: false, ..self }.say(
                ResponseCode::UserLoggedIn,
                "Welcome "@ + self.name->Some_0 + "!"@,
            )
        } else {
            SessionView {
                name: None,
                is_admin: false,
                waiting_password: false,
                ..self
            }.refuse(FtpError::WrongPassword)
        }
    }

    /// `QUIT`: the data channel is closed if it is open, and the session
    /// ends.
    pub open spec fn quit(self) -> (SessionView, StepView) {
        (
            SessionView { data_open: false, pending: PendingView::Closed, ..self },
            StepView {
                reply: reply(
                    ResponseCode::ServiceClosingControlConnection,
                    "Closing Connection..."@,
                ),
                close_data: self.data_open,
                request: RequestView::Close,
            },
        )
    }

    /// The commands that are served whether or not a user is logged in. Any
    /// other command is refused here: it needs a login.
    pub open spec fn common(self, cmd: CommandView) -> (SessionView, StepView) {
        match cmd {
            CommandView::AUTH => self.say(ResponseCode::CommandNotImplemented, "Not Implemented"@),
            CommandView::QUIT => self.quit(),
            CommandView::SYST => self.say(ResponseCode::Okay, "Bugger Off"@),
            CommandView::TYPE(t) => SessionView { transfer_type: t, ..self }.say(
                ResponseCode::Okay,
                "Data Transfer Type Changed Successfully"@,
            ),
            CommandView::USER(name) => self.user(name),
            CommandView::NOOP => self.say(ResponseCode::Okay, "No Operation"@),
            CommandView::UNKNOWN(verb) => self.say(
                ResponseCode::UnknownCommand,
                "\""@ + verb + "\": [Command Not Implemented]"@,
            ),
            _ => self.say(ResponseCode::NotLoggedIn, "Please Log In first"@),
        }
    }

    /// `PASV`: refused while a data channel is open, which stays as it is;
    /// else a listener is bound, to the port of the last `PORT` if there was
    /// one.
    pub open spec fn pasv(self) -> (SessionView, StepView) {
        if self.data_open {
            self.refuse(FtpError::DataChannelAlreadyOpen)
        } else {
            self.ask(
                PendingView::Listen,
                RequestView::Listen(
                    match self.data_port {
                        Some(port) => port,
                        None => 0,
                    },
                ),
            )
        }
    }

    /// Whether a transfer can have a data channel: one is open, or `PORT`
    /// has named the port at which to connect to the client.
    pub open spec fn can_transfer(self) -> bool {
        self.data_open || self.data_port is Some
    }

    /// Begins a transfer whose path is settled. Where the data channel is
    /// open, the transfer is announced and `request` is asked. Else the
    /// client is connected to first, at the port that `PORT` named, and
    /// `waiting` keeps what the transfer is about.
    pub open spec fn begin(
        self,
        message: Seq<char>,
        pending: PendingView,
        request: RequestView,
        waiting: PendingView,
    ) -> (SessionView, StepView) {
        if self.data_open {
            self.say_and_ask(ResponseCode::DataConnectionAlreadyOpen, message, pending, request)
        } else {
            match self.data_port {
                Some(port) => self.ask(waiting, RequestView::Connect(port)),
                None => self.refuse(FtpError::NoDataChannel),
            }
        }
    }

    /// `PWD`: the working directory in quotes.
    pub open spec fn pwd(self) -> (SessionView, StepView) {
        if self.cwd.len() > 0 {
            self.say(ResponseCode::PATHNAMECreated, "\""@ + self.cwd + "\""@)
        } else {
            self.refuse(FtpError::NotFound)
        }
    }

    /// `LIST`: needs a data channel, open or to be opened; then the path is
    /// resolved.
    pub open spec fn list(self, arg: Option<Seq<char>>) -> (SessionView, StepView) {
        if !self.can_transfer() {
            self.refuse(FtpError::NoDataChannel)
        } else {
            self.ask(
                PendingView::ListResolve,
                RequestView::Resolve(self.target(list_path(arg))),
            )
        }
    }

    /// `RETR`: needs a data channel, open or to be opened; then the path is
    /// resolved.
    pub open spec fn retr(self, p: Seq<char>) -> (SessionView, StepView) {
        if !self.can_transfer() {
            self.refuse(FtpError::NoDataChannel)
        } else {
            self.ask(PendingView::RetrResolve, RequestView::Resolve(self.target(p)))
        }
    }

    /// `STOR`: a path with `..` among its names is refused before anything
    /// else. Then a data channel is needed, open or to be opened, and a path
    /// that ends in a name; the directory of that name is resolved.
    pub open spec fn stor(self, p: Seq<char>) -> (SessionView, StepView) {
        let full = join_paths(self.cwd, p);
        if has_parent_dir(p) {
            self.abort(FtpError::PermissionDenied)
        } else if !self.can_transfer() {
            self.refuse(FtpError::NoDataChannel)
        } else if parent_of(full) is None || file_name_of(full) is None {
            self.abort(FtpError::NotFound)
        } else {
            self.ask(
                PendingView::StorResolve(file_name_of(full)->Some_0),
                RequestView::Resolve(under_root(self.root, parent_of(full)->Some_0)),
            )
        }
    }

    /// `MKD`: the path must end in a name; the directory of that name is
    /// resolved.
    pub open spec fn mkd(self, p: Seq<char>) -> (SessionView, StepView) {
        let full = join_paths(self.cwd, p);
        if parent_of(full) is None || file_name_of(full) is None {
            self.say(ResponseCode::FileNotFound, "Unable to create Folder"@)
        } else {
            self.ask(
                PendingView::MkdResolve(file_name_of(full)->Some_0),
                RequestView::Resolve(under_root(self.root, parent_of(full)->Some_0)),
            )
        }
    }

    /// The commands of a user who is logged in.
    pub open spec fn logged_in(self, cmd: CommandView) -> (SessionView, StepView) {
        match cmd {
            CommandView::CWD(dir) => self.ask(
                PendingView::Cwd(dir),
                RequestView::Resolve(self.target(dir)),
            ),
            CommandView::LIST(arg) => self.list(arg),
            CommandView::PASV => self.pasv(),
            CommandView::PORT(port) => SessionView { data_port: Some(port), ..self }.say(
                ResponseCode::Okay,
                "PORT command successful, PORT: "@ + decimal(port as nat),
            ),
            CommandView::PWD => self.pwd(),
            CommandView::RETR(p) => self.retr(p),
            CommandView::STOR(p) => self.stor(p),
            CommandView::CDUP => SessionView { cwd: cdup(self.cwd), ..self }.say(
                ResponseCode::Okay,
                "CDUP command successful"@,
            ),
            CommandView::MKD(p) => self.mkd(p),
            CommandView::RMD(p) => self.ask(
                PendingView::RmdResolve,
                RequestView::Resolve(self.target(p)),
            ),
            _ => self.common(cmd),
        }
    }

    /// A session that has ended stays as it is and asks only to be closed.
    pub open spec fn ended(self) -> (SessionView, StepView) {
        (self, StepView { reply: None, close_data: false, request: RequestView::Close })
    }

    /// What a command does: everything for a user who is logged in, the
    /// password for one who owes it, and for anyone the commands that need
    /// no login. A session that has ended serves none.
    pub open spec fn command(self, cmd: CommandView) -> (SessionView, StepView) {
        if self.pending is Closed {
            self.ended()
        } else if self.is_logged_in() {
            self.logged_in(cmd)
        } else if self.name is Some && cmd is PASS {
            self.pass(cmd->PASS_0)
        } else {
            self.common(cmd)
        }
    }

    /// What a line of the control connection does: the command it holds, or
    /// a reply that says why it holds none.
    pub open spec fn line(self, l: Seq<char>) -> (SessionView, StepView) {
        if self.pending is Closed {
            self.ended()
        } else {
            match parse(l) {
                Ok(cmd) => self.command(cmd),
                Err(m) => self.say(ResponseCode::InvalidParameterOrArgument, m),
            }
        }
    }

    /// An event that answers nothing the session asked for: what is pending
    /// is given up, with a reply unless nothing was pending.
    pub open spec fn unexpected(self) -> (SessionView, StepView) {
        if self.pending is Idle {
            (self, StepView { reply: None, close_data: false, request: RequestView::ReadCommand })
        } else if in_transfer(self.pending) {
            self.abort(FtpError::Io)
        } else {
            self.refuse(FtpError::Io)
        }
    }

    /// The store resolved a path, or could not.
    pub open spec fn resolved(self, r: Option<ResolvedView>) -> (SessionView, StepView) {
        match self.pending {
            PendingView::Cwd(dir) => match self.resolution(r) {
                Ok(found) => SessionView {
                    cwd: rooted(names_below(self.root, found.path)),
                    ..self
                }.say(
                    ResponseCode::RequestedFileActionOkay,
                    "Directory changed to \""@ + dir + "\""@,
                ),
                Err(_) => self.refuse(FtpError::NotFound),
            },
            PendingView::ListResolve => match self.resolution(r) {
                Ok(found) => self.begin(
                    "Starting to list directories"@,
                    PendingView::ListEntries,
                    entries_request(found.path, found.kind == EntryKind::Directory),
                    PendingView::ListConnect(found.path, found.kind == EntryKind::Directory),
                ),
                Err(e) => self.abort(e),
            },
            PendingView::RetrResolve => match self.resolution(r) {
                Ok(found) => if !self.may_touch(found.path) {
                    self.abort(FtpError::PermissionDenied)
                } else if found.kind != EntryKind::File {
                    self.abort(FtpError::NotFound)
                } else {
                    self.begin(
                        "Starting to send the file"@,
                        PendingView::RetrOpen,
                        RequestView::OpenFile(found.path),
                        PendingView::RetrConnect(found.path),
                    )
                },
                Err(e) => self.abort(e),
            },
            PendingView::StorResolve(name) => match self.resolution(r) {
                Ok(found) => if !self.may_touch(join_paths(found.path, name)) {
                    self.abort(FtpError::PermissionDenied)
                } else if found.kind != EntryKind::Directory {
                    self.abort(FtpError::NotFound)
                } else {
                    self.begin(
                        "Starting to Store the file"@,
                        PendingView::StorReceive(
                            join_paths(found.path, name),
                            Seq::<u8>::empty(),
                        ),
                        RequestView::Receive(CHUNK_SIZE),
                        PendingView::StorConnect(join_paths(found.path, name)),
                    )
                },
                Err(e) => self.abort(e),
            },
            PendingView::MkdResolve(name) => match self.resolution(r) {
                Ok(found) => if found.kind == EntryKind::Directory {
                    self.ask(
                        PendingView::MkdCreate,
                        RequestView::CreateDir(join_paths(found.path, name)),
                    )
                } else {
                    self.say(ResponseCode::FileNotFound, "Unable to create Folder"@)
                },
                Err(_) => self.say(ResponseCode::FileNotFound, "Unable to create Folder"@),
            },
            PendingView::RmdResolve => match self.resolution(r) {
                Ok(found) => if found.kind == EntryKind::Directory {
                    self.ask(PendingView::RmdRemove, RequestView::RemoveDir(found.path))
                } else {
                    self.say(ResponseCode::FileNotFound, "Couldn't Remove Folder"@)
                },
                Err(_) => self.say(ResponseCode::FileNotFound, "Couldn't Remove Folder"@),
            },
            _ => self.unexpected(),
        }
    }

    /// The passive listener is bound, or could not be.
    pub open spec fn listening(self, port: Option<u16>) -> (SessionView, StepView) {
        if self.pending is Listen {
            match port {
                Some(p) => self.say_and_ask(
                    ResponseCode::EnteringPassiveMode,
                    passive_message(p),
                    PendingView::Accept,
                    RequestView::Accept,
                ),
                None => self.refuse(FtpError::Io),
            }
        } else {
            self.unexpected()
        }
    }

    /// The client is connected to, or could not be, for a transfer that
    /// waited for it: the transfer is announced and `request` asked, or the
    /// transfer is refused.
    pub open spec fn connected_for(
        self,
        ok: bool,
        message: Seq<char>,
        pending: PendingView,
        request: RequestView,
    ) -> (SessionView, StepView) {
        if ok {
            SessionView { data_open: true, ..self }.say_and_ask(
                ResponseCode::DataConnectionAlreadyOpen,
                message,
                pending,
                request,
            )
        } else {
            self.say(ResponseCode::CantOpenDataConnection, "Can't open data connection"@)
        }
    }

    /// The data channel is connected, or could not be. After `PASV` the
    /// session reads the next command either way; a transfer that waited for
    /// the channel begins or is refused.
    pub open spec fn connected(self, ok: bool) -> (SessionView, StepView) {
        match self.pending {
            PendingView::Accept => SessionView { data_open: ok, ..self }.ask(
                PendingView::Idle,
                RequestView::ReadCommand,
            ),
            PendingView::ListConnect(path, is_dir) => self.connected_for(
                ok,
                "Starting to list directories"@,
                PendingView::ListEntries,
                entries_request(path, is_dir),
            ),
            PendingView::RetrConnect(path) => self.connected_for(
                ok,
                "Starting to send the file"@,
                PendingView::RetrOpen,
                RequestView::OpenFile(path),
            ),
            PendingView::StorConnect(path) => self.connected_for(
                ok,
                "Starting to Store the file"@,
                PendingView::StorReceive(path, Seq::<u8>::empty()),
                RequestView::Receive(CHUNK_SIZE),
            ),
            _ => self.unexpected(),
        }
    }

    /// The store gave entries, or failed.
    pub open spec fn entries(self, e: Option<Seq<FileInfoView>>, now: i64) -> (
        SessionView,
        StepView,
    ) {
        if self.pending is ListEntries {
            match e {
                Some(v) => self.ask(
                    PendingView::ListSend,
                    RequestView::Send(listing_bytes(visible(v, self.root, self.is_admin), now)),
                ),
                None => self.abort(FtpError::Io),
            }
        } else {
            self.unexpected()
        }
    }

    /// Bytes were read, or reading failed. No bytes mean the end of the
    /// stream.
    pub open spec fn chunk(self, c: Option<Seq<u8>>) -> (SessionView, StepView) {
        match self.pending {
            PendingView::RetrRead => match c {
                None => self.abort(FtpError::Io),
                Some(bytes) => if bytes.len() == 0 {
                    self.finish(
                        ResponseCode::ClosingDataConnection,
                        "Data connection closed, Transfer Done"@,
                    )
                } else {
                    self.ask(PendingView::RetrSend, RequestView::Send(bytes))
                },
            },
            PendingView::StorReceive(path, data) => match c {
                None => self.abort(FtpError::Io),
                Some(bytes) => if bytes.len() == 0 {
                    self.ask(PendingView::StorWrite, RequestView::WriteFile(path, data))
                } else {
                    self.ask(
                        PendingView::StorReceive(path, data + bytes),
                        RequestView::Receive(CHUNK_SIZE),
                    )
                },
            },
            _ => self.unexpected(),
        }
    }

    /// Work is done, or failed.
    pub open spec fn done(self, ok: bool) -> (SessionView, StepView) {
        match self.pending {
            PendingView::ListSend => if ok {
                self.finish(ResponseCode::ClosingDataConnection, "Directories Transfer done"@)
            } else {
                self.abort(FtpError::Io)
            },
            PendingView::RetrOpen => if ok {
                self.ask(PendingView::RetrRead, RequestView::ReadFile(CHUNK_SIZE))
            } else {
                self.abort(FtpError::Io)
            },
            PendingView::RetrSend => if ok {
                self.ask(PendingView::RetrRead, RequestView::ReadFile(CHUNK_SIZE))
            } else {
                self.abort(FtpError::Io)
            },
            PendingView::StorWrite => if ok {
                self.finish(
                    ResponseCode::ClosingDataConnection,
                    "Data connection closed, Transfer Done"@,
                )
            } else {
                self.abort(FtpError::Io)
            },
            PendingView::MkdCreate => if ok {
                self.say(ResponseCode::PATHNAMECreated, "Directory created"@)
            } else {
                self.say(ResponseCode::FileNotFound, "Unable to create Folder"@)
            },
            PendingView::RmdRemove => if ok {
                self.say(ResponseCode::RequestedFileActionOkay, "Folder Removed successfully"@)
            } else {
                self.say(ResponseCode::FileNotFound, "Couldn't Remove Folder"@)
            },
            _ => self.unexpected(),
        }
    }

    /// The control connection is closed or broken: the data channel is
    /// closed if it is open, and the session ends.
    pub open spec fn disconnected(self) -> (SessionView, StepView) {
        (
            SessionView { data_open: false, pending: PendingView::Closed, ..self },
            StepView { reply: None, close_data: self.data_open, request: RequestView::Close },
        )
    }

    /// The next state and the step for an event. A session that has ended
    /// stays ended.
    pub open spec fn step(self, event: EventView) -> (SessionView, StepView) {
        if self.pending is Closed {
            self.ended()
        } else {
            match event {
                EventView::Line(l) => self.line(l),
                EventView::Disconnected => self.disconnected(),
                EventView::Resolved(r) => self.resolved(r),
                EventView::Listening(port) => self.listening(port),
                EventView::Connected(ok) => self.connected(ok),
                EventView::Entries(e, now) => self.entries(e, now),
                EventView::Chunk(c) => self.chunk(c),
                EventView::Done(ok) => self.done(ok),
            }
        }
    }
}

/// Whether a command needs a login: it reads or changes the store, the
/// working directory or the data channel.
pub open spec fn needs_login(cmd: CommandView) -> bool {
    cmd is CWD || cmd is CDUP || cmd is LIST || cmd is RETR || cmd is STOR || cmd is MKD
        || cmd is RMD || cmd is PASV || cmd is PORT || cmd is PWD
}

/// The path that a request hands to the store, if it hands one.
pub open spec fn request_path(request: RequestView) -> Option<Seq<char>> {
    match request {
        RequestView::Resolve(p) => Some(p),
        RequestView::ListDirectory(p) => Some(p),
        RequestView::Inspect(p) => Some(p),
        RequestView::OpenFile(p) => Some(p),
        RequestView::WriteFile(p, _) => Some(p),
        RequestView::CreateDir(p) => Some(p),
        RequestView::RemoveDir(p) => Some(p),
        _ => None,
    }
}

impl SessionView {
    /// What holds of every state that a session reaches.
    pub open spec fn inv(self) -> bool {
        &&& is_absolute(self.cwd)
        &&& self.waiting_password ==> self.name is Some
        &&& self.name is Some ==> self.config.identify(self.name->Some_0) is Some
        &&& self.is_admin == (self.name is Some && self.config.identify(self.name->Some_0)
            is Some && self.config.identify(self.name->Some_0)->Some_0.is_admin)
        &&& self.pending is Closed ==> !self.data_open
        &&& uses_channel(self.pending) ==> self.data_open
        &&& resolves_for_transfer(self.pending) ==> self.can_transfer()
        &&& (self.pending is Listen || self.pending is Accept || connects(self.pending))
            ==> !self.data_open
        &&& self.pending matches PendingView::ListConnect(path, _) ==> confined(path, self.root)
        &&& self.pending matches PendingView::RetrConnect(path) ==> confined(path, self.root)
            && self.may_touch(path)
        &&& self.pending matches PendingView::StorConnect(path) ==> confined(path, self.root)
            && self.may_touch(path)
        &&& self.pending matches PendingView::StorResolve(name) ==> plain_name(name) && name
            != parent_dir()
        &&& self.pending matches PendingView::MkdResolve(name) ==> plain_name(name) && name
            != parent_dir()
        &&& self.pending matches PendingView::StorReceive(path, _) ==> confined(path, self.root)
            && self.may_touch(path)
    }
}

/// A session begins in a state where the invariant holds.
pub proof fn lemma_start_inv(root: Seq<char>, config: ConfigView)
    ensures
        SessionView::start(root, config).inv(),
{
}

/// The last name of a path, where it has one, is a plain name other than
/// `..`.
proof fn lemma_file_name_plain(p: Seq<char>)
    ensures
        file_name_of(p) is Some ==> plain_name(file_name_of(p)->Some_0) && file_name_of(p)->Some_0
            != parent_dir(),
{
    lemma_segments_plain(p);
    if segments(p).len() > 0 {
        assert(plain_name(segments(p)[segments(p).len() - 1]));
    }
}

/// Every step keeps the invariant: the working directory stays absolute, the
/// administrator's rights belong to the administrator's name alone, a
/// transfer always has its data channel, and what is being stored goes
/// below the root.
pub proof fn lemma_step_inv(s: SessionView, event: EventView)
    requires
        s.inv(),
    ensures
        s.step(event).0.inv(),
{
    if !(s.pending is Closed) {
        match event {
            EventView::Line(l) => {
                if parse(l) is Ok {
                    lemma_command_inv(s, parse(l)->Ok_0);
                }
            },
            EventView::Resolved(r) => {
                match s.pending {
                    PendingView::StorResolve(name) => {
                        if r is Some {
                            lemma_join_name(r->Some_0.path, name, s.root);
                        }
                    },
                    PendingView::Cwd(dir) => {
                        assert(rooted(names_below(s.root, r->Some_0.path))[0] == '/');
                    },
                    _ => {},
                }
            },
            _ => {},
        }
    }
}

/// Every command keeps the invariant.
pub proof fn lemma_command_inv(s: SessionView, cmd: CommandView)
    requires
        s.inv(),
    ensures
        s.command(cmd).0.inv(),
{
    match cmd {
        CommandView::STOR(p) => {
            lemma_file_name_plain(join_paths(s.cwd, p));
        },
        CommandView::MKD(p) => {
            lemma_file_name_plain(join_paths(s.cwd, p));
        },
        CommandView::CDUP => {
            if parent_of(s.cwd) is Some {
                assert(slash_prefixed(parent_of(s.cwd)->Some_0)[0] == '/');
            }
        },
        _ => {},
    }
}

/// Confinement: whatever the client sends and whatever the store answers,
/// every path that a step hands to the store has the names of the root as
/// its first names. A path to resolve may still hold `..`, which the store
/// follows; every other path is one that the store resolved, or such a path
/// with one plain name added: it holds no `..` and so lies below the root.
pub proof fn lemma_requests_confined(s: SessionView, event: EventView)
    requires
        s.inv(),
    ensures
        match request_path(s.step(event).1.request) {
            Some(p) => within(p, s.root) && (s.step(event).1.request is Resolve
                || !has_parent_dir(p)),
            None => true,
        },
{
    if !(s.pending is Closed) {
        match event {
            EventView::Line(l) => {
                if parse(l) is Ok {
                    lemma_command_confined(s, parse(l)->Ok_0);
                }
            },
            EventView::Resolved(r) => {
                match s.pending {
                    PendingView::MkdResolve(name) => {
                        if r is Some {
                            lemma_join_name(r->Some_0.path, name, s.root);
                        }
                    },
                    _ => {},
                }
            },
            _ => {},
        }
    }
}

/// Every path that a command asks the store to resolve lies, as written,
/// below the root.
pub proof fn lemma_command_confined(s: SessionView, cmd: CommandView)
    ensures
        match request_path(s.command(cmd).1.request) {
            Some(p) => within(p, s.root) && s.command(cmd).1.request is Resolve,
            None => true,
        },
{
    match cmd {
        CommandView::CWD(p) => lemma_under_root(s.root, join_paths(s.cwd, p)),
        CommandView::LIST(arg) => lemma_under_root(s.root, join_paths(s.cwd, list_path(arg))),
        CommandView::RETR(p) => lemma_under_root(s.root, join_paths(s.cwd, p)),
        CommandView::RMD(p) => lemma_under_root(s.root, join_paths(s.cwd, p)),
        CommandView::STOR(p) => {
            let full = join_paths(s.cwd, p);
            if parent_of(full) is Some {
                lemma_under_root(s.root, parent_of(full)->Some_0);
            }
        },
        CommandView::MKD(p) => {
            let full = join_paths(s.cwd, p);
            if parent_of(full) is Some {
                lemma_under_root(s.root, parent_of(full)->Some_0);
            }
        },
        _ => {},
    }
}

/// The login gate: while nobody is logged in, a command that needs a login
/// is answered with the request to log in, asks nothing of the store, and
/// changes nothing.
pub proof fn lemma_login_gate(s: SessionView, cmd: CommandView)
    requires
        !(s.pending is Closed),
        !s.is_logged_in(),
        needs_login(cmd),
    ensures
        s.command(cmd).1 == (StepView {
            reply: reply(ResponseCode::NotLoggedIn, "Please Log In first"@),
            close_data: false,
            request: RequestView::ReadCommand,
        }),
        s.command(cmd).0 == (SessionView { pending: PendingView::Idle, ..s }),
{
}

/// One data channel: `PASV` while a data channel is open is answered with
/// "already open"; the channel stays open and nothing is asked of the
/// network.
pub proof fn lemma_single_data_channel(s: SessionView)
    requires
        !(s.pending is Closed),
        s.is_logged_in(),
        s.data_open,
    ensures
        s.command(CommandView::PASV).1 == (StepView {
            reply: reply(
                ResponseCode::DataConnectionAlreadyOpen,
                "Data connection already open"@,
            ),
            close_data: false,
            request: RequestView::ReadCommand,
        }),
        s.command(CommandView::PASV).0.data_open,
{
}

/// A path with `..` among its names is never stored: a user who is logged
/// in is answered with "permission denied", and nothing is asked of the
/// store.
pub proof fn lemma_stor_parent_dir(s: SessionView, p: Seq<char>)
    requires
        !(s.pending is Closed),
        s.is_logged_in(),
        has_parent_dir(p),
    ensures
        s.command(CommandView::STOR(p)).1.reply == reply(
            ResponseCode::FileNotFound,
            "Permission denied"@,
        ),
        s.command(CommandView::STOR(p)).1.request == RequestView::ReadCommand,
        s.command(CommandView::STOR(p)).0.pending is Idle,
{
}

/// No line is dropped in silence: the step for a line either replies or asks
/// for the work that will lead to the reply.
pub proof fn lemma_line_answered(s: SessionView, l: Seq<char>)
    requires
        !(s.pending is Closed),
    ensures
        s.step(EventView::Line(l)).1.reply is Some || s.step(EventView::Line(l)).1.request
            != RequestView::ReadCommand,
{
}

/// What a listing shows: the entries that the store gave, in their order,
/// without the protected file for anyone but an administrator, and with
/// every entry for an administrator.
pub proof fn lemma_list_protection(s: SessionView, entries: Seq<FileInfoView>, now: i64)
    requires
        s.pending is ListEntries,
    ensures
        s.step(EventView::Entries(Some(entries), now)).1.request == RequestView::Send(
            listing_bytes(visible(entries, s.root, s.is_admin), now),
        ),
        s.is_admin ==> visible(entries, s.root, s.is_admin) == entries,
        !s.is_admin ==> forall|i: int|
            0 <= i < visible(entries, s.root, false).len() ==> !is_protected(
                s.root,
                #[trigger] visible(entries, s.root, false)[i].path,
            ),
{
    lemma_admin_sees_all(entries, s.root);
    assert forall|i: int| 0 <= i < visible(entries, s.root, false).len() implies !is_protected(
        s.root,
        #[trigger] visible(entries, s.root, false)[i].path,
    ) by {
        lemma_protected_hidden(entries, s.root, i);
    }
}

/// The replies of a download, in order: one that announces it when the
/// path resolves to a file that may be read, none while the file is read
/// and sent piece by piece, each piece as it was read, and one that
/// completes it at the end of the file, when the data channel is closed.
pub proof fn lemma_retr_replies(s: SessionView, found: ResolvedView, bytes: Seq<u8>)
    requires
        s.data_open,
    ensures
        s.pending is RetrResolve && found.kind == EntryKind::File && confined(
            found.path,
            s.root,
        ) && s.may_touch(found.path) ==> {
            let next = s.step(EventView::Resolved(Some(found)));
            &&& next.1.reply is Some
            &&& next.1.reply->Some_0.code.class() == 1
            &&& next.1.request == RequestView::OpenFile(found.path)
            &&& next.0.pending is RetrOpen
        },
        s.pending is RetrOpen || s.pending is RetrSend ==> {
            let next = s.step(EventView::Done(true));
            &&& next.1.reply is None
            &&& next.1.request == RequestView::ReadFile(CHUNK_SIZE)
            &&& next.0.pending is RetrRead
        },
        s.pending is RetrRead && bytes.len() > 0 ==> {
            let next = s.step(EventView::Chunk(Some(bytes)));
            &&& next.1.reply is None
            &&& next.1.request == RequestView::Send(bytes)
            &&& next.0.pending is RetrSend
        },
        s.pending is RetrRead ==> {
            let next = s.step(EventView::Chunk(Some(Seq::<u8>::empty())));
            &&& next.1.reply is Some
            &&& next.1.reply->Some_0.code == ResponseCode::ClosingDataConnection
            &&& next.1.close_data
            &&& !next.0.data_open
            &&& next.1.request == RequestView::ReadCommand
        },
{
}

/// The bytes `chunks` in a row.
pub open spec fn concat(chunks: Seq<Seq<u8>>) -> Seq<u8>
    decreases chunks.len(),
{
    if chunks.len() == 0 {
        Seq::<u8>::empty()
    } else {
        concat(chunks.drop_last()) + chunks.last()
    }
}

impl SessionView {
    /// The state after these pieces were received for an upload, one event
    /// for each.
    pub open spec fn received(self, chunks: Seq<Seq<u8>>) -> SessionView
        decreases chunks.len(),
    {
        if chunks.len() == 0 {
            self
        } else {
            self.received(chunks.drop_last()).step(EventView::Chunk(Some(chunks.last()))).0
        }
    }

    /// The state after these pieces of a file were read and sent for a
    /// download, and the bytes that the steps asked to send, in order.
    pub open spec fn sent(self, chunks: Seq<Seq<u8>>) -> (SessionView, Seq<u8>)
        decreases chunks.len(),
    {
        if chunks.len() == 0 {
            (self, Seq::<u8>::empty())
        } else {
            let before = self.sent(chunks.drop_last());
            let read = before.0.step(EventView::Chunk(Some(chunks.last())));
            let wrote = read.0.step(EventView::Done(true));
            (
                wrote.0,
                match read.1.request {
                    RequestView::Send(bytes) => before.1 + bytes,
                    _ => before.1,
                },
            )
        }
    }
}

/// An upload stores what was received: after any pieces, none of them
/// empty, the end of the stream asks to write exactly those pieces, in
/// their order, after what was there before, to the path that was resolved.
pub proof fn lemma_stor_writes_what_came(
    s: SessionView,
    path: Seq<char>,
    data: Seq<u8>,
    chunks: Seq<Seq<u8>>,
)
    requires
        s.pending == PendingView::StorReceive(path, data),
        forall|i: int| 0 <= i < chunks.len() ==> (#[trigger] chunks[i]).len() > 0,
    ensures
        s.received(chunks) == (SessionView {
            pending: PendingView::StorReceive(path, data + concat(chunks)),
            ..s
        }),
        s.received(chunks).step(EventView::Chunk(Some(Seq::<u8>::empty()))).1.request
            == RequestView::WriteFile(path, data + concat(chunks)),
    decreases chunks.len(),
{
    if chunks.len() == 0 {
        assert(data + concat(chunks) =~= data);
    } else {
        let init = chunks.drop_last();
        assert forall|i: int| 0 <= i < init.len() implies (#[trigger] init[i]).len() > 0 by {
            assert(init[i] == chunks[i]);
        }
        lemma_stor_writes_what_came(s, path, data, init);
        assert(chunks.last() == chunks[chunks.len() - 1]);
        assert(data + concat(init) + chunks.last() =~= data + concat(chunks));
    }
}

/// A download sends what was read: while pieces of the file come, none of
/// them empty, each is sent as it is, so that the bytes sent are the pieces
/// in their order; and the session is then where it was, ready to read the
/// next piece.
pub proof fn lemma_retr_sends_what_was_read(s: SessionView, chunks: Seq<Seq<u8>>)
    requires
        s.pending is RetrRead,
        forall|i: int| 0 <= i < chunks.len() ==> (#[trigger] chunks[i]).len() > 0,
    ensures
        s.sent(chunks) == (s, concat(chunks)),
    decreases chunks.len(),
{
    if chunks.len() > 0 {
        let init = chunks.drop_last();
        assert forall|i: int| 0 <= i < init.len() implies (#[trigger] init[i]).len() > 0 by {
            assert(init[i] == chunks[i]);
        }
        lemma_retr_sends_what_was_read(s, init);
        assert(chunks.last() == chunks[chunks.len() - 1]);
    }
}

/// Logging in takes the right credential: a session where nobody is logged
/// in gets to one where somebody is only by a `USER` line whose name
/// selects a credential without a password, or by a `PASS` line with the
/// password of the credential that the name given before selects.
pub proof fn lemma_login_sound(s: SessionView, event: EventView)
    requires
        !s.is_logged_in(),
        s.step(event).0.is_logged_in(),
    ensures
        event is Line,
        parse(event->Line_0) is Ok,
        ({
            let cmd = parse(event->Line_0)->Ok_0;
            ||| cmd is USER && s.config.identify(cmd->USER_0) is Some && !s.config.identify(
                cmd->USER_0,
            )->Some_0.credential.password_required()
            ||| cmd is PASS && s.name is Some && s.config.identify(s.name->Some_0) is Some
                && s.config.identify(s.name->Some_0)->Some_0.credential.password == cmd->PASS_0
        }),
{
}

/// The data channel opens only when a peer connects: after `PASV`, or to
/// the port of `PORT` for a transfer that waits for it.
pub proof fn lemma_channel_opens(s: SessionView, event: EventView)
    requires
        !s.data_open,
        s.step(event).0.data_open,
    ensures
        event == EventView::Connected(true),
        s.pending is Accept || connects(s.pending),
{
}

/// Closing the data channel is idempotent: ending a transfer leaves the
/// channel closed, and ending it again changes nothing and has nothing to
/// close.
pub proof fn lemma_close_idempotent(s: SessionView, code: ResponseCode, message: Seq<char>)
    ensures
        !s.finish(code, message).0.data_open,
        s.finish(code, message).1.close_data == s.data_open,
        s.finish(code, message).0.finish(code, message).0 == s.finish(code, message).0,
        !s.finish(code, message).0.finish(code, message).1.close_data,
{
}

/// The data channel is never dropped in silence: a step that leaves it
/// closed says to close it.
pub proof fn lemma_channel_closes(s: SessionView, event: EventView)
    requires
        s.inv(),
        s.data_open,
        !s.step(event).0.data_open,
    ensures
        s.step(event).1.close_data,
{
}

/// Changing the directory succeeds whenever the path resolves below the
/// root, whatever it names: the working directory becomes the part of the
/// resolved path below the root, with a separator in front, the reply says
/// so, and `PWD` then gives that directory in quotes. Where the path does
/// not resolve below the root, the working directory stays and the reply is
/// "no such file or directory".
pub proof fn lemma_cwd_resolved(s: SessionView, dir: Seq<char>, r: Option<ResolvedView>)
    requires
        s.pending == PendingView::Cwd(dir),
        s.is_logged_in(),
    ensures
        ({
            let moved = s.step(EventView::Resolved(r));
            let told = moved.0.command(CommandView::PWD);
            if r is Some && confined(r->Some_0.path, s.root) {
                &&& moved.0.cwd == rooted(names_below(s.root, r->Some_0.path))
                &&& is_absolute(moved.0.cwd)
                &&& moved.1.reply == reply(
                    ResponseCode::RequestedFileActionOkay,
                    "Directory changed to \""@ + dir + "\""@,
                )
                &&& told.1.reply == reply(
                    ResponseCode::PATHNAMECreated,
                    "\""@ + rooted(names_below(s.root, r->Some_0.path)) + "\""@,
                )
            } else {
                &&& moved.0.cwd == s.cwd
                &&& moved.1.reply == reply(ResponseCode::FileNotFound, "No such file or directory"@)
            }
        }),
{
    if r is Some {
        assert(rooted(names_below(s.root, r->Some_0.path))[0] == '/');
    }
}

/// Changing the directory and asking for it: where the store resolves the
/// path of `CWD dir` to a path of the same names, none of them `..`, the
/// working directory becomes the absolute path made of the names of `dir`
/// read from the old working directory, it has just those names, and `PWD`
/// then gives it in quotes.
pub proof fn lemma_cwd_then_pwd(s: SessionView, dir: Seq<char>, found: ResolvedView)
    requires
        !(s.pending is Closed),
        s.is_logged_in(),
        is_absolute(found.path) == is_absolute(s.root),
        segments(found.path) == segments(s.target(dir)),
        !has_parent_dir(found.path),
    ensures
        ({
            let asked = s.command(CommandView::CWD(dir)).0;
            let moved = asked.step(EventView::Resolved(Some(found)));
            let told = moved.0.command(CommandView::PWD);
            &&& moved.0.cwd == rooted(segments(join_paths(s.cwd, dir)))
            &&& segments(moved.0.cwd) == segments(join_paths(s.cwd, dir))
            &&& moved.1.reply == reply(
                ResponseCode::RequestedFileActionOkay,
                "Directory changed to \""@ + dir + "\""@,
            )
            &&& told.1.reply == reply(
                ResponseCode::PATHNAMECreated,
                "\""@ + rooted(segments(join_paths(s.cwd, dir))) + "\""@,
            )
        }),
{
    let v = join_paths(s.cwd, dir);
    lemma_under_root(s.root, v);
    lemma_segments_plain(v);
    lemma_segments_rooted(segments(v));
    let n = segments(s.root).len() as int;
    assert((segments(s.root) + segments(v)).skip(n) =~= segments(v));
    assert((segments(s.root) + segments(v)).subrange(0, n) =~= segments(s.root));
}

/// `CDUP` goes up by one name and stays absolute; at `/` it stays at `/`.
pub proof fn lemma_cdup(s: SessionView)
    requires
        !(s.pending is Closed),
        s.is_logged_in(),
        is_absolute(s.cwd),
    ensures
        s.command(CommandView::CDUP).0.cwd == if segments(s.cwd).len() == 0 {
            s.cwd
        } else {
            rooted(segments(s.cwd).drop_last())
        },
{
}

} // verus!
