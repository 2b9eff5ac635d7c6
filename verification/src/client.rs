//! One session of a client, from its first command to its last.

use vstd::prelude::*;
use crate::client_command::{Command, DataTransferType};
use crate::error::FtpError;
use crate::ftp_config::FtpConfig;
use crate::ftp_response::Response;
use crate::ftp_response_code::ResponseCode;
use crate::listing::{list_dir, protected_path, FileInfo};
use crate::path::{complete_path, get_parent, join_path, resolve, strip_prefix};
use crate::session::{
    list_path, passive_message, EntryKind, Event, Pending, PendingView, Request, Resolved,
    SessionView, Step, CHUNK_SIZE,
};
use crate::text::{push_decimal, push_text, same_text};
use crate::utils::{get_filename, get_first_word_and_rest, invalid_path, prefix_slash};

verus! {

/// The state of one session. It is created when a client connects and
/// belongs to that connection alone.
#[derive(Debug)]
pub struct Client {
    cwd: String,
    data_port: Option<u16>,
    data_open: bool,
    name: Option<String>,
    server_root_dir: String,
    data_transfer_type: DataTransferType,
    is_admin: bool,
    ftp_config: FtpConfig,
    waiting_password: bool,
    pending: Pending,
}

impl View for Client {
    type V = SessionView;

    closed spec fn view(&self) -> SessionView {
        SessionView {
            cwd: self.cwd@,
            root: self.server_root_dir@,
            config: self.ftp_config@,
            name: match self.name {
                Some(n) => Some(n@),
                None => None,
            },
            waiting_password: self.waiting_password,
            is_admin: self.is_admin,
            transfer_type: self.data_transfer_type,
            data_port: self.data_port,
            data_open: self.data_open,
            pending: self.pending@,
        }
    }
}

/// The texts `a`, `b` and `c` in a row.
fn text3(a: &str, b: &str, c: &str) -> (s: String)
    ensures
        s@ == a@ + b@ + c@,
{
    let mut s = a.to_owned();
    push_text(&mut s, b);
    push_text(&mut s, c);
    s
}

/// The texts `a` and `b` in a row.
fn text2(a: &str, b: &str) -> (s: String)
    ensures
        s@ == a@ + b@,
{
    let mut s = a.to_owned();
    push_text(&mut s, b);
    s
}

/// The path that `LIST` is about: the argument without a leading flag.
fn list_target(arg: Option<String>) -> (p: String)
    ensures
        p@ == list_path(
            match arg {
                Some(a) => Some(a@),
                None => None,
            },
        ),
{
    match arg {
        None => String::new(),
        Some(a) => {
            if a.as_str().unicode_len() > 0 && a.as_str().get_char(0) == '-' {
                match get_first_word_and_rest(a.as_str()) {
                    Some((_, rest)) => rest.to_owned(),
                    None => String::new(),
                }
            } else {
                a
            }
        },
    }
}

/// The payload of the reply to `PASV` for a listener on `port`.
fn passive_text(port: u16) -> (s: String)
    ensures
        s@ == passive_message(port),
{
    let mut s = "Entering Passive Mode (0,0,0,0,".to_owned();
    push_decimal(&mut s, (port / 256) as u64);
    push_text(&mut s, ",");
    push_decimal(&mut s, (port % 256) as u64);
    push_text(&mut s, ").");
    s
}

impl Client {
    /// A session that has just begun: nobody is logged in, the working
    /// directory is `/`, and no data channel is open.
    pub fn new(server_root_dir: String, ftp_config: FtpConfig) -> (client: Self)
        ensures
            client@ == SessionView::start(server_root_dir@, ftp_config@),
            client@.inv(),
    {
        let mut cwd = String::new();
        crate::text::push_char(&mut cwd, '/');
        assert(cwd@ =~= seq!['/']);
        Client {
            cwd,
            data_port: None,
            data_open: false,
            name: None,
            server_root_dir,
            data_transfer_type: DataTransferType::ASCII,
            is_admin: false,
            ftp_config,
            waiting_password: false,
            pending: Pending::Idle,
        }
    }

    /// Whether a user name is known and its password, if any, was given.
    pub fn is_logged_in(&self) -> (r: bool)
        ensures
            r == self@.is_logged_in(),
    {
        self.name.is_some() && !self.waiting_password
    }

    /// The working directory, as the client sees it.
    pub fn cwd(&self) -> (r: &str)
        ensures
            r@ == self@.cwd,
    {
        self.cwd.as_str()
    }

    /// Whether the session has the administrator's rights.
    pub fn is_admin(&self) -> (r: bool)
        ensures
            r == self@.is_admin,
    {
        self.is_admin
    }

    /// Whether the data channel is open.
    pub fn has_data_channel(&self) -> (r: bool)
        ensures
            r == self@.data_open,
    {
        self.data_open
    }

    /// The port of the last `PORT` command.
    pub fn data_port(&self) -> (r: Option<u16>)
        ensures
            r == self@.data_port,
    {
        self.data_port
    }

    /// The transfer type of the last `TYPE` command.
    pub fn transfer_type(&self) -> (r: DataTransferType)
        ensures
            r == self@.transfer_type,
    {
        self.data_transfer_type
    }

    /// Whether the session has ended.
    pub fn is_closed(&self) -> (r: bool)
        ensures
            r == (self@.pending is Closed),
    {
        match &self.pending {
            Pending::Closed => true,
            _ => false,
        }
    }

    fn say(&mut self, code: ResponseCode, message: String) -> (step: Step)
        ensures
            (final(self)@, step@) == old(self)@.say(code, message@),
    {
        self.pending = Pending::Idle;
        Step { reply: Some(Response { code, message }), close_data: false, request: Request::ReadCommand }
    }

    fn refuse(&mut self, e: FtpError) -> (step: Step)
        ensures
            (final(self)@, step@) == old(self)@.refuse(e),
    {
        self.pending = Pending::Idle;
        Step { reply: Some(e.to_response()), close_data: false, request: Request::ReadCommand }
    }

    fn ask(&mut self, pending: Pending, request: Request) -> (step: Step)
        ensures
            (final(self)@, step@) == old(self)@.ask(pending@, request@),
    {
        self.pending = pending;
        Step { reply: None, close_data: false, request }
    }

    fn say_and_ask(
        &mut self,
        code: ResponseCode,
        message: &str,
        pending: Pending,
        request: Request,
    ) -> (step: Step)
        ensures
            (final(self)@, step@) == old(self)@.say_and_ask(code, message@, pending@, request@),
    {
        self.pending = pending;
        Step { reply: Some(Response::new(code, message)), close_data: false, request }
    }

    /// Marks the data channel closed, whether or not it was open, and says
    /// whether there is a channel to close.
    fn close_data_connection(&mut self) -> (was_open: bool)
        ensures
            was_open == old(self)@.data_open,
            final(self)@ == (SessionView { data_open: false, ..old(self)@ }),
    {
        let was_open = self.data_open;
        self.data_open = false;
        was_open
    }

    fn finish(&mut self, code: ResponseCode, message: &str) -> (step: Step)
        ensures
            (final(self)@, step@) == old(self)@.finish(code, message@),
    {
        let close_data = self.close_data_connection();
        self.pending = Pending::Idle;
        Step { reply: Some(Response::new(code, message)), close_data, request: Request::ReadCommand }
    }

    fn abort(&mut self, e: FtpError) -> (step: Step)
        ensures
            (final(self)@, step@) == old(self)@.abort(e),
    {
        let close_data = self.close_data_connection();
        self.pending = Pending::Idle;
        Step { reply: Some(e.to_response()), close_data, request: Request::ReadCommand }
    }

    /// The path in the store that the client's path `p` stands for, before
    /// the store resolves it.
    fn target(&self, p: &str) -> (r: String)
        ensures
            r@ == self@.target(p@),
    {
        let full = join_path(self.cwd.as_str(), p);
        complete_path(self.server_root_dir.as_str(), full.as_str())
    }

    fn may_touch(&self, p: &str) -> (r: bool)
        ensures
            r == self@.may_touch(p@),
    {
        self.is_admin || !protected_path(self.server_root_dir.as_str(), p)
    }

    /// What resolving a path comes to, given what the store made of it.
    fn resolution(&self, r: Option<Resolved>) -> (out: Result<Resolved, FtpError>)
        ensures
            match self@.resolution(
                match r {
                    Some(r) => Some(r@),
                    None => None,
                },
            ) {
                Ok(found) => out is Ok && out->Ok_0@ == found,
                Err(e) => out is Err && out->Err_0 == e,
            },
    {
        match r {
            None => Err(FtpError::NotFound),
            Some(found) => {
                let kind = found.kind;
                match resolve(self.server_root_dir.as_str(), Some(found.path)) {
                    Ok(path) => Ok(Resolved { path, kind }),
                    Err(e) => Err(e),
                }
            },
        }
    }

    fn forget_identity(&mut self)
        ensures
            final(self)@ == (SessionView {
                name: None,
                is_admin: false,
                waiting_password: false,
                ..old(self)@
            }),
    {
        self.name = None;
        self.is_admin = false;
        self.waiting_password = false;
    }

    fn user(&mut self, name: String) -> (step: Step)
        ensures
            (final(self)@, step@) == old(self)@.user(name@),
    {
        if name.as_str().unicode_len() == 0 {
            return self.say(
                ResponseCode::InvalidParameterOrArgument,
                "Invalid Username".to_owned(),
            );
        }
        let found = match self.ftp_config.identify(name.as_str()) {
            Some((is_admin, user)) => Some((is_admin, user.password.as_str().unicode_len() > 0)),
            None => None,
        };
        match found {
            Some((is_admin, password_req)) => {
                let message = if password_req {
                    text2("Provide password for ", name.as_str())
                } else {
                    text3("Welcome ", name.as_str(), "!")
                };
                self.name = Some(name);
                self.is_admin = is_admin;
                self.waiting_password = password_req;
                if password_req {
                    self.say(ResponseCode::UserNameOkayNeedPassword, message)
                } else {
                    self.say(ResponseCode::UserLoggedIn, message)
                }
            },
            None => {
                self.forget_identity();
                self.refuse(FtpError::UnknownUser)
            },
        }
    }

    fn pass(&mut self, password: String) -> (step: Step)
        requires
            old(self)@.name is Some,
        ensures
            (final(self)@, step@) == old(self)@.pass(password@),
    {
        let welcome = match &self.name {
            Some(name) => match self.ftp_config.identify(name.as_str()) {
                Some((_, user)) => {
                    if same_text(user.password.as_str(), password.as_str()) {
                        Some(text3("Welcome ", name.as_str(), "!"))
                    } else {
                        None
                    }
                },
                None => None,
            },
            None => None,
        };
        match welcome {
            Some(message) => {
                self.waiting_password = false;
                self.say(ResponseCode::UserLoggedIn, message)
            },
            None => {
                self.forget_identity();
                self.refuse(FtpError::WrongPassword)
            },
        }
    }

    fn quit(&mut self) -> (step: Step)
        ensures
            (final(self)@, step@) == old(self)@.quit(),
    {
        let close_data = self.close_data_connection();
        self.pending = Pending::Closed;
        Step {
            reply: Some(
                Response::new(
                    ResponseCode::ServiceClosingControlConnection,
                    "Closing Connection...",
                ),
            ),
            close_data,
            request: Request::Close,
        }
    }

    fn common(&mut self, cmd: Command) -> (step: Step)
        ensures
            (final(self)@, step@) == old(self)@.common(cmd@),
    {
        match cmd {
            Command::AUTH => self.say(
                ResponseCode::CommandNotImplemented,
                "Not Implemented".to_owned(),
            ),
            Command::QUIT => self.quit(),
            Command::SYST => self.say(ResponseCode::Okay, "Bugger Off".to_owned()),
            Command::TYPE(type_) => {
                self.data_transfer_type = type_;
                self.say(ResponseCode::Okay, "Data Transfer Type Changed Successfully".to_owned())
            },
            Command::USER(content) => self.user(content),
            Command::NOOP => self.say(ResponseCode::Okay, "No Operation".to_owned()),
            Command::UNKNOWN(s) => {
                let message = text3("\"", s.as_str(), "\": [Command Not Implemented]");
                self.say(ResponseCode::UnknownCommand, message)
            },
            _ => self.say(ResponseCode::NotLoggedIn, "Please Log In first".to_owned()),
        }
    }

    fn pasv(&mut self) -> (step: Step)
        ensures
            (final(self)@, step@) == old(self)@.pasv(),
    {
        if self.data_open {
            return self.refuse(FtpError::DataChannelAlreadyOpen);
        }
        let port = if let Some(port) = self.data_port {
            port
        } else {
            0
        };
        self.ask(Pending::Listen, Request::Listen(port))
    }

    fn can_transfer(&self) -> (r: bool)
        ensures
            r == self@.can_transfer(),
    {
        self.data_open || self.data_port.is_some()
    }

    /// Begins a transfer whose path is settled: announces it where the data
    /// channel is open, and else has the client connected to first.
    fn begin(&mut self, message: &str, pending: Pending, request: Request, waiting: Pending) -> (step:
        Step)
        ensures
            (final(self)@, step@) == old(self)@.begin(message@, pending@, request@, waiting@),
    {
        if self.data_open {
            self.say_and_ask(ResponseCode::DataConnectionAlreadyOpen, message, pending, request)
        } else {
            match self.data_port {
                Some(port) => self.ask(waiting, Request::Connect(port)),
                None => self.refuse(FtpError::NoDataChannel),
            }
        }
    }

    /// The request for the entries of a resolved path.
    fn entries_request(path: String, is_dir: bool) -> (r: Request)
        ensures
            r@ == crate::session::entries_request(path@, is_dir),
    {
        if is_dir {
            Request::ListDirectory(path)
        } else {
            Request::Inspect(path)
        }
    }

    fn pwd(&mut self) -> (step: Step)
        ensures
            (final(self)@, step@) == old(self)@.pwd(),
    {
        if self.cwd.as_str().unicode_len() > 0 {
            let message = text3("\"", self.cwd.as_str(), "\"");
            self.say(ResponseCode::PATHNAMECreated, message)
        } else {
            self.refuse(FtpError::NotFound)
        }
    }

    fn list(&mut self, args: Option<String>) -> (step: Step)
        ensures
            (final(self)@, step@) == old(self)@.list(
                match args {
                    Some(a) => Some(a@),
                    None => None,
                },
            ),
    {
        if !self.can_transfer() {
            return self.refuse(FtpError::NoDataChannel);
        }
        let path = list_target(args);
        let request = Request::Resolve(self.target(path.as_str()));
        self.ask(Pending::ListResolve, request)
    }

    fn retr(&mut self, path: String) -> (step: Step)
        ensures
            (final(self)@, step@) == old(self)@.retr(path@),
    {
        if !self.can_transfer() {
            return self.refuse(FtpError::NoDataChannel);
        }
        let request = Request::Resolve(self.target(path.as_str()));
        self.ask(Pending::RetrResolve, request)
    }

    fn stor(&mut self, path: String) -> (step: Step)
        ensures
            (final(self)@, step@) == old(self)@.stor(path@),
    {
        if invalid_path(path.as_str()) {
            return self.abort(FtpError::PermissionDenied);
        }
        if !self.can_transfer() {
            return self.refuse(FtpError::NoDataChannel);
        }
        let full = join_path(self.cwd.as_str(), path.as_str());
        match (get_parent(full.as_str()), get_filename(full.as_str())) {
            (Some(parent), Some(name)) => {
                let request = Request::Resolve(
                    complete_path(self.server_root_dir.as_str(), parent.as_str()),
                );
                self.ask(Pending::StorResolve(name), request)
            },
            _ => self.abort(FtpError::NotFound),
        }
    }

    fn mkd(&mut self, path: String) -> (step: Step)
        ensures
            (final(self)@, step@) == old(self)@.mkd(path@),
    {
        let full = join_path(self.cwd.as_str(), path.as_str());
        match (get_parent(full.as_str()), get_filename(full.as_str())) {
            (Some(parent), Some(name)) => {
                let request = Request::Resolve(
                    complete_path(self.server_root_dir.as_str(), parent.as_str()),
                );
                self.ask(Pending::MkdResolve(name), request)
            },
            _ => self.say(ResponseCode::FileNotFound, "Unable to create Folder".to_owned()),
        }
    }

    fn logged_in(&mut self, cmd: Command) -> (step: Step)
        ensures
            (final(self)@, step@) == old(self)@.logged_in(cmd@),
    {
        match cmd {
            Command::CWD(directory) => {
                let request = Request::Resolve(self.target(directory.as_str()));
                self.ask(Pending::Cwd(directory), request)
            },
            Command::LIST(args) => self.list(args),
            Command::PASV => self.pasv(),
            Command::PORT(port) => {
                self.data_port = Some(port);
                let mut message = "PORT command successful, PORT: ".to_owned();
                push_decimal(&mut message, port as u64);
                self.say(ResponseCode::Okay, message)
            },
            Command::PWD => self.pwd(),
            Command::RETR(file) => self.retr(file),
            Command::STOR(file) => self.stor(file),
            Command::CDUP => {
                if let Some(mut path) = get_parent(self.cwd.as_str()) {
                    prefix_slash(&mut path);
                    self.cwd = path;
                }
                self.say(ResponseCode::Okay, "CDUP command successful".to_owned())
            },
            Command::MKD(path) => self.mkd(path),
            Command::RMD(path) => {
                let request = Request::Resolve(self.target(path.as_str()));
                self.ask(Pending::RmdResolve, request)
            },
            other => self.common(other),
        }
    }

    /// Serves one command: changes the state and says what to reply and
    /// what to do next.
    pub fn handle_command(&mut self, cmd: Command) -> (step: Step)
        ensures
            (final(self)@, step@) == old(self)@.command(cmd@),
            old(self)@.inv() ==> final(self)@.inv(),
    {
        proof {
            if self@.inv() {
                crate::session::lemma_command_inv(self@, cmd@);
            }
        }
        if self.is_closed() {
            Step { reply: None, close_data: false, request: Request::Close }
        } else if self.is_logged_in() {
            self.logged_in(cmd)
        } else if self.name.is_some() {
            match cmd {
                Command::PASS(content) => self.pass(content),
                other => self.common(other),
            }
        } else {
            self.common(cmd)
        }
    }

    fn unexpected(&mut self) -> (step: Step)
        ensures
            (final(self)@, step@) == old(self)@.unexpected(),
    {
        let transfer = match &self.pending {
            Pending::Idle => {
                return Step { reply: None, close_data: false, request: Request::ReadCommand };
            },
            Pending::ListResolve
            | Pending::ListConnect(_, _)
            | Pending::ListEntries
            | Pending::ListSend
            | Pending::RetrResolve
            | Pending::RetrConnect(_)
            | Pending::RetrOpen
            | Pending::RetrRead
            | Pending::RetrSend
            | Pending::StorResolve(_)
            | Pending::StorConnect(_)
            | Pending::StorReceive(_, _)
            | Pending::StorWrite => true,
            _ => false,
        };
        if transfer {
            self.abort(FtpError::Io)
        } else {
            self.refuse(FtpError::Io)
        }
    }

    /// Takes what is pending out of the state, which is idle meanwhile.
    fn take_pending(&mut self) -> (pending: Pending)
        ensures
            pending == old(self).pending,
            final(self)@ == (SessionView { pending: PendingView::Idle, ..old(self)@ }),
    {
        let mut pending = Pending::Idle;
        core::mem::swap(&mut self.pending, &mut pending);
        pending
    }

    fn resolved(&mut self, r: Option<Resolved>) -> (step: Step)
        ensures
            (final(self)@, step@) == old(self)@.resolved(
                match r {
                    Some(r) => Some(r@),
                    None => None,
                },
            ),
    {
        let found = self.resolution(r);
        match self.take_pending() {
            Pending::Cwd(directory) => match found {
                Ok(dir) => {
                    match strip_prefix(self.server_root_dir.as_str(), dir.path.as_str()) {
                        Ok(prefix) => {
                            self.cwd = prefix;
                            prefix_slash(&mut self.cwd);
                            proof {
                                crate::path::lemma_segments_plain(dir.path@);
                                crate::path::lemma_join_relative(
                                    crate::path::names_below(self.server_root_dir@, dir.path@),
                                );
                            }
                            let message = text3(
                                "Directory changed to \"",
                                directory.as_str(),
                                "\"",
                            );
                            self.say(ResponseCode::RequestedFileActionOkay, message)
                        },
                        Err(_) => self.refuse(FtpError::NotFound),
                    }
                },
                Err(_) => self.refuse(FtpError::NotFound),
            },
            Pending::ListResolve => match found {
                Ok(path) => {
                    let is_dir = path.kind == EntryKind::Directory;
                    let request = Self::entries_request(path.path.clone(), is_dir);
                    self.begin(
                        "Starting to list directories",
                        Pending::ListEntries,
                        request,
                        Pending::ListConnect(path.path, is_dir),
                    )
                },
                Err(e) => self.abort(e),
            },
            Pending::RetrResolve => match found {
                Ok(path) => {
                    if !self.may_touch(path.path.as_str()) {
                        self.abort(FtpError::PermissionDenied)
                    } else if path.kind != EntryKind::File {
                        self.abort(FtpError::NotFound)
                    } else {
                        self.begin(
                            "Starting to send the file",
                            Pending::RetrOpen,
                            Request::OpenFile(path.path.clone()),
                            Pending::RetrConnect(path.path),
                        )
                    }
                },
                Err(e) => self.abort(e),
            },
            Pending::StorResolve(name) => match found {
                Ok(dir) => {
                    let path = join_path(dir.path.as_str(), name.as_str());
                    if !self.may_touch(path.as_str()) {
                        self.abort(FtpError::PermissionDenied)
                    } else if dir.kind != EntryKind::Directory {
                        self.abort(FtpError::NotFound)
                    } else {
                        self.begin(
                            "Starting to Store the file",
                            Pending::StorReceive(path.clone(), Vec::new()),
                            Request::Receive(CHUNK_SIZE),
                            Pending::StorConnect(path),
                        )
                    }
                },
                Err(e) => self.abort(e),
            },
            Pending::MkdResolve(name) => match found {
                Ok(dir) => {
                    if dir.kind == EntryKind::Directory {
                        let path = join_path(dir.path.as_str(), name.as_str());
                        self.ask(Pending::MkdCreate, Request::CreateDir(path))
                    } else {
                        self.say(ResponseCode::FileNotFound, "Unable to create Folder".to_owned())
                    }
                },
                Err(_) => self.say(
                    ResponseCode::FileNotFound,
                    "Unable to create Folder".to_owned(),
                ),
            },
            Pending::RmdResolve => match found {
                Ok(dir) => {
                    if dir.kind == EntryKind::Directory {
                        self.ask(Pending::RmdRemove, Request::RemoveDir(dir.path))
                    } else {
                        self.say(ResponseCode::FileNotFound, "Couldn't Remove Folder".to_owned())
                    }
                },
                Err(_) => self.say(ResponseCode::FileNotFound, "Couldn't Remove Folder".to_owned()),
            },
            other => {
                self.pending = other;
                self.unexpected()
            },
        }
    }

    fn listening(&mut self, port: Option<u16>) -> (step: Step)
        ensures
            (final(self)@, step@) == old(self)@.listening(port),
    {
        match (&self.pending, port) {
            (Pending::Listen, Some(p)) => {
                let message = passive_text(p);
                self.pending = Pending::Accept;
                Step {
                    reply: Some(Response { code: ResponseCode::EnteringPassiveMode, message }),
                    close_data: false,
                    request: Request::Accept,
                }
            },
            (Pending::Listen, None) => self.refuse(FtpError::Io),
            _ => self.unexpected(),
        }
    }

    /// Begins or refuses a transfer that waited for the client to be
    /// connected to.
    fn connected_for(&mut self, ok: bool, message: &str, pending: Pending, request: Request) -> (step:
        Step)
        ensures
            (final(self)@, step@) == old(self)@.connected_for(ok, message@, pending@, request@),
    {
        if ok {
            self.data_open = true;
            self.say_and_ask(ResponseCode::DataConnectionAlreadyOpen, message, pending, request)
        } else {
            self.say(ResponseCode::CantOpenDataConnection, "Can't open data connection".to_owned())
        }
    }

    fn connected(&mut self, ok: bool) -> (step: Step)
        ensures
            (final(self)@, step@) == old(self)@.connected(ok),
    {
        match self.take_pending() {
            Pending::Accept => {
                self.data_open = ok;
                self.ask(Pending::Idle, Request::ReadCommand)
            },
            Pending::ListConnect(path, is_dir) => {
                let request = Self::entries_request(path, is_dir);
                self.connected_for(
                    ok,
                    "Starting to list directories",
                    Pending::ListEntries,
                    request,
                )
            },
            Pending::RetrConnect(path) => self.connected_for(
                ok,
                "Starting to send the file",
                Pending::RetrOpen,
                Request::OpenFile(path),
            ),
            Pending::StorConnect(path) => self.connected_for(
                ok,
                "Starting to Store the file",
                Pending::StorReceive(path, Vec::new()),
                Request::Receive(CHUNK_SIZE),
            ),
            other => {
                self.pending = other;
                self.unexpected()
            },
        }
    }

    fn entries(&mut self, e: Option<Vec<FileInfo>>, now: i64) -> (step: Step)
        ensures
            (final(self)@, step@) == old(self)@.entries(
                match e {
                    Some(v) => Some(crate::listing::infos(v@)),
                    None => None,
                },
                now,
            ),
    {
        match (&self.pending, e) {
            (Pending::ListEntries, Some(v)) => {
                let out = list_dir(&v, self.server_root_dir.as_str(), self.is_admin, now);
                self.ask(Pending::ListSend, Request::Send(out))
            },
            (Pending::ListEntries, None) => self.abort(FtpError::Io),
            _ => self.unexpected(),
        }
    }

    fn chunk(&mut self, c: Option<Vec<u8>>) -> (step: Step)
        ensures
            (final(self)@, step@) == old(self)@.chunk(
                match c {
                    Some(v) => Some(v@),
                    None => None,
                },
            ),
    {
        match self.take_pending() {
            Pending::RetrRead => match c {
                None => self.abort(FtpError::Io),
                Some(bytes) => {
                    if bytes.len() == 0 {
                        self.finish(
                            ResponseCode::ClosingDataConnection,
                            "Data connection closed, Transfer Done",
                        )
                    } else {
                        self.ask(Pending::RetrSend, Request::Send(bytes))
                    }
                },
            },
            Pending::StorReceive(path, mut file_data) => match c {
                None => self.abort(FtpError::Io),
                Some(mut bytes) => {
                    if bytes.len() == 0 {
                        self.ask(Pending::StorWrite, Request::WriteFile(path, file_data))
                    } else {
                        file_data.append(&mut bytes);
                        self.ask(
                            Pending::StorReceive(path, file_data),
                            Request::Receive(CHUNK_SIZE),
                        )
                    }
                },
            },
            other => {
                self.pending = other;
                self.unexpected()
            },
        }
    }

    fn done(&mut self, ok: bool) -> (step: Step)
        ensures
            (final(self)@, step@) == old(self)@.done(ok),
    {
        match &self.pending {
            Pending::ListSend => if ok {
                self.finish(ResponseCode::ClosingDataConnection, "Directories Transfer done")
            } else {
                self.abort(FtpError::Io)
            },
            Pending::RetrOpen | Pending::RetrSend => if ok {
                self.ask(Pending::RetrRead, Request::ReadFile(CHUNK_SIZE))
            } else {
                self.abort(FtpError::Io)
            },
            Pending::StorWrite => if ok {
                self.finish(
                    ResponseCode::ClosingDataConnection,
                    "Data connection closed, Transfer Done",
                )
            } else {
                self.abort(FtpError::Io)
            },
            Pending::MkdCreate => if ok {
                self.say(ResponseCode::PATHNAMECreated, "Directory created".to_owned())
            } else {
                self.say(ResponseCode::FileNotFound, "Unable to create Folder".to_owned())
            },
            Pending::RmdRemove => if ok {
                self.say(
                    ResponseCode::RequestedFileActionOkay,
                    "Folder Removed successfully".to_owned(),
                )
            } else {
                self.say(ResponseCode::FileNotFound, "Couldn't Remove Folder".to_owned())
            },
            _ => self.unexpected(),
        }
    }

    /// The control connection is gone: closes the data channel and ends the
    /// session.
    fn disconnected(&mut self) -> (step: Step)
        ensures
            (final(self)@, step@) == old(self)@.disconnected(),
    {
        let close_data = self.close_data_connection();
        self.pending = Pending::Closed;
        Step { reply: None, close_data, request: Request::Close }
    }

    /// Takes in what happened: changes the state and says what to reply,
    /// whether to close the data channel, and what to do next.
    pub fn handle_event(&mut self, event: Event) -> (step: Step)
        ensures
            (final(self)@, step@) == old(self)@.step(event@),
            old(self)@.inv() ==> final(self)@.inv(),
    {
        proof {
            if self@.inv() {
                crate::session::lemma_step_inv(self@, event@);
            }
        }
        if self.is_closed() {
            return Step { reply: None, close_data: false, request: Request::Close };
        }
        match event {
            Event::Line(line) => self.handle_line(line.as_str()),
            Event::Disconnected => self.disconnected(),
            Event::Resolved(r) => self.resolved(r),
            Event::Listening(port) => self.listening(port),
            Event::Connected(ok) => self.connected(ok),
            Event::Entries(e, now) => self.entries(e, now),
            Event::Chunk(c) => self.chunk(c),
            Event::Done(ok) => self.done(ok),
        }
    }

    /// Serves one line of the control connection, given without its line
    /// ending. A line that holds no command is answered with the reason.
    pub fn handle_line(&mut self, line: &str) -> (step: Step)
        ensures
            (final(self)@, step@) == old(self)@.line(line@),
    {
        if self.is_closed() {
            return Step { reply: None, close_data: false, request: Request::Close };
        }
        match Command::new(line) {
            Ok(cmd) => self.handle_command(cmd),
            Err(FtpError::Msg(message)) => self.say(
                ResponseCode::InvalidParameterOrArgument,
                message,
            ),
            Err(e) => self.refuse(e),
        }
    }
}

} // verus!
