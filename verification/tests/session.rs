use ftp_rustified::client::Client;
use ftp_rustified::client_command::{Command, DataTransferType};
use ftp_rustified::client_handler::ClientHandler;
use ftp_rustified::ftp_config::FtpConfig;
use ftp_rustified::ftp_user::FtpUser;
use ftp_rustified::listing::FileInfo;
use ftp_rustified::server::{greeting, Server};
use ftp_rustified::session::{EntryKind, Event, Request, Resolved, Step, CHUNK_SIZE};

const ROOT: &str = "/srv/ftp";

fn config() -> FtpConfig {
    FtpConfig {
        port: 2001,
        addr: "0.0.0.0".to_string(),
        admin: Some(FtpUser { username: "root".to_string(), password: "toor".to_string() }),
        users: vec![
            FtpUser { username: "alice".to_string(), password: "secret".to_string() },
            FtpUser { username: "guest".to_string(), password: "".to_string() },
        ],
    }
}

fn client() -> Client {
    Client::new(ROOT.to_string(), config())
}

fn line(c: &mut Client, l: &str) -> Step {
    c.handle_event(Event::Line(l.to_string()))
}

/// The reply of a step, as the line on the wire without its ending.
fn said(step: &Step) -> String {
    match &step.reply {
        Some(r) => format!("{} {}", r.code.number(), r.message),
        None => String::new(),
    }
}

fn alice() -> Client {
    let mut c = client();
    assert_eq!(said(&line(&mut c, "USER alice")), "331 Provide password for alice");
    assert_eq!(said(&line(&mut c, "PASS secret")), "230 Welcome alice!");
    c
}

fn admin() -> Client {
    let mut c = client();
    line(&mut c, "USER root");
    assert_eq!(said(&line(&mut c, "PASS toor")), "230 Welcome root!");
    assert!(c.is_admin());
    c
}

fn found(path: &str, kind: EntryKind) -> Event {
    Event::Resolved(Some(Resolved { path: path.to_string(), kind }))
}

/// Opens the data channel by `PASV`, with a peer that connects.
fn open_data(c: &mut Client) {
    let step = line(c, "PASV");
    assert!(step.reply.is_none());
    assert!(matches!(step.request, Request::Listen(_)));
    let step = c.handle_event(Event::Listening(Some(50_000)));
    assert_eq!(said(&step), "227 Entering Passive Mode (0,0,0,0,195,80).");
    assert!(matches!(step.request, Request::Accept));
    assert!(!c.has_data_channel());
    let step = c.handle_event(Event::Connected(true));
    assert!(step.reply.is_none());
    assert!(matches!(step.request, Request::ReadCommand));
    assert!(c.has_data_channel());
}

fn file(path: &str, size: u64) -> FileInfo {
    FileInfo { path: path.to_string(), is_dir: false, readonly: false, mode: 0o644, size, modified: 1_546_300_800 }
}

#[test]
fn greeting_is_service_ready() {
    assert_eq!(greeting().encode(), b"220 Welcome to the FTP Server\r\n".to_vec());
}

#[test]
fn new_session_is_at_the_root_and_logged_out() {
    let c = client();
    assert_eq!(c.cwd(), "/");
    assert!(!c.is_logged_in());
    assert!(!c.is_admin());
    assert!(!c.has_data_channel());
    assert!(!c.is_closed());
    assert_eq!(c.data_port(), None);
    assert_eq!(c.transfer_type(), DataTransferType::ASCII);
}

#[test]
fn server_hands_out_fresh_sessions() {
    let server = Server::new(ROOT.to_string(), config());
    assert_eq!(server.get_root_dir(), ROOT);
    assert_eq!(server.get_curr_dir(), ROOT);
    assert_eq!(server.get_curr_dir(), server.get_root_dir());
    let mut a = server.session();
    let b = server.session();
    line(&mut a, "USER guest");
    assert!(a.is_logged_in());
    assert!(!b.is_logged_in());
}

#[test]
fn client_handler_starts_a_session() {
    let handler = ClientHandler::new(ROOT.to_string(), config());
    assert_eq!(handler.server_root_dir, ROOT);
    assert_eq!(handler.welcome_user().to_string(), "220 Welcome to the FTP Server");
    let mut c = handler.handle_client();
    assert_eq!(said(&line(&mut c, "PWD")), "530 Please Log In first");
}

#[test]
fn login_with_password_then_pwd() {
    let mut c = client();
    let step = line(&mut c, "USER alice");
    assert_eq!(said(&step), "331 Provide password for alice");
    assert!(matches!(step.request, Request::ReadCommand));
    assert!(!c.is_logged_in());
    let step = line(&mut c, "PASS secret");
    assert_eq!(said(&step), "230 Welcome alice!");
    assert!(c.is_logged_in());
    assert!(!c.is_admin());
    let step = line(&mut c, "PWD");
    assert_eq!(said(&step), "257 \"/\"");
    assert_eq!(step.reply.unwrap().encode(), b"257 \"/\"\r\n".to_vec());
}

#[test]
fn login_without_password() {
    let mut c = client();
    assert_eq!(said(&line(&mut c, "USER guest")), "230 Welcome guest!");
    assert!(c.is_logged_in());
}

#[test]
fn login_with_empty_name_changes_nothing() {
    let mut c = client();
    assert_eq!(said(&line(&mut c, "USER")), "501 Invalid Username");
    assert!(!c.is_logged_in());
    let mut c = alice();
    assert_eq!(said(&line(&mut c, "USER ")), "501 Invalid Username");
    assert!(c.is_logged_in());
}

#[test]
fn login_of_an_unknown_user() {
    let mut c = client();
    assert_eq!(said(&line(&mut c, "USER bob")), "530 Unknown User!");
    assert!(!c.is_logged_in());
    assert_eq!(said(&line(&mut c, "PASS secret")), "530 Please Log In first");
    assert!(!c.is_logged_in());
}

#[test]
fn wrong_password_clears_the_identity() {
    let mut c = client();
    line(&mut c, "USER alice");
    assert_eq!(said(&line(&mut c, "PASS wrong")), "530 Invalid Password");
    assert!(!c.is_logged_in());
    assert_eq!(said(&line(&mut c, "PASS secret")), "530 Please Log In first");
    assert!(!c.is_logged_in());
    line(&mut c, "USER alice");
    assert_eq!(said(&line(&mut c, "PASS secret")), "230 Welcome alice!");
}

#[test]
fn admin_login_sets_the_admin_flag() {
    let mut c = client();
    assert_eq!(said(&line(&mut c, "USER root")), "331 Provide password for root");
    assert!(!c.is_logged_in());
    assert_eq!(said(&line(&mut c, "PASS toor")), "230 Welcome root!");
    assert!(c.is_admin());
    assert_eq!(said(&line(&mut c, "USER guest")), "230 Welcome guest!");
    assert!(!c.is_admin());
}

#[test]
fn commands_before_login_are_refused() {
    let lines = [
        "CWD sub", "CDUP", "LIST", "LIST -al", "RETR a.txt", "STOR a.txt", "MKD sub", "RMD sub",
        "PASV", "PORT 1,2,3,4,39,136", "PWD",
    ];
    for l in lines {
        let mut c = client();
        let step = line(&mut c, l);
        assert_eq!(said(&step), "530 Please Log In first", "{}", l);
        assert!(matches!(step.request, Request::ReadCommand), "{}", l);
        assert!(!step.close_data);
        assert_eq!(c.cwd(), "/");
        assert_eq!(c.data_port(), None);
        assert!(!c.has_data_channel());
    }
}

#[test]
fn commands_while_the_password_is_owed_are_refused() {
    for l in ["CWD sub", "LIST", "RETR a.txt", "STOR a.txt", "MKD sub", "RMD sub", "PASV", "PWD"] {
        let mut c = client();
        line(&mut c, "USER alice");
        let step = line(&mut c, l);
        assert_eq!(said(&step), "530 Please Log In first", "{}", l);
        assert!(matches!(step.request, Request::ReadCommand), "{}", l);
        assert_eq!(said(&line(&mut c, "PASS secret")), "230 Welcome alice!");
    }
}

#[test]
fn commands_that_need_no_login() {
    let mut c = client();
    assert_eq!(said(&line(&mut c, "AUTH TLS")), "502 Not Implemented");
    assert_eq!(said(&line(&mut c, "SYST")), "200 Bugger Off");
    assert_eq!(said(&line(&mut c, "NOOP")), "200 No Operation");
    assert_eq!(said(&line(&mut c, "TYPE I")), "200 Data Transfer Type Changed Successfully");
    assert_eq!(c.transfer_type(), DataTransferType::IMAGE);
    assert_eq!(said(&line(&mut c, "FEAT")), "500 \"FEAT\": [Command Not Implemented]");
    assert!(!c.is_logged_in());
}

#[test]
fn malformed_lines_get_a_reply_and_the_session_goes_on() {
    let mut c = alice();
    let step = line(&mut c, "PORT 1,2,3");
    assert_eq!(said(&step), "501 Invalid address/port");
    assert!(matches!(step.request, Request::ReadCommand));
    assert_eq!(said(&line(&mut c, "PORT 1,2,3,4,3,232")), "501 Port can't be less than 1025");
    assert_eq!(said(&line(&mut c, "TYPE X")), "501 Command not implemented");
    assert_eq!(c.data_port(), None);
    assert_eq!(said(&line(&mut c, "PWD")), "257 \"/\"");
}

#[test]
fn port_is_kept_as_a_hint_for_pasv() {
    let mut c = alice();
    assert_eq!(said(&line(&mut c, "PORT 1,2,3,4,39,136")), "200 PORT command successful, PORT: 10120");
    assert_eq!(c.data_port(), Some(10120));
    let step = line(&mut c, "PASV");
    assert!(matches!(step.request, Request::Listen(10120)));
}

#[test]
fn pasv_without_a_hint_asks_for_any_port() {
    let mut c = alice();
    assert!(matches!(line(&mut c, "PASV").request, Request::Listen(0)));
}

#[test]
fn pasv_reports_the_port_in_two_bytes() {
    let mut c = alice();
    line(&mut c, "PASV");
    assert_eq!(
        said(&c.handle_event(Event::Listening(Some(1025)))),
        "227 Entering Passive Mode (0,0,0,0,4,1)."
    );
    let mut c = alice();
    line(&mut c, "PASV");
    assert_eq!(
        said(&c.handle_event(Event::Listening(Some(65535)))),
        "227 Entering Passive Mode (0,0,0,0,255,255)."
    );
}

#[test]
fn pasv_bind_failure_leaves_the_session_usable() {
    let mut c = alice();
    line(&mut c, "PASV");
    let step = c.handle_event(Event::Listening(None));
    assert_eq!(said(&step), "451 Local error in processing");
    assert!(matches!(step.request, Request::ReadCommand));
    assert!(!c.has_data_channel());
    assert_eq!(said(&line(&mut c, "PWD")), "257 \"/\"");
    open_data(&mut c);
}

#[test]
fn pasv_without_a_peer_leaves_the_channel_closed() {
    let mut c = alice();
    line(&mut c, "PASV");
    c.handle_event(Event::Listening(Some(50_000)));
    let step = c.handle_event(Event::Connected(false));
    assert!(step.reply.is_none());
    assert!(matches!(step.request, Request::ReadCommand));
    assert!(!c.has_data_channel());
}

#[test]
fn pasv_while_a_channel_is_open_is_refused() {
    let mut c = alice();
    open_data(&mut c);
    let step = line(&mut c, "PASV");
    assert_eq!(said(&step), "125 Data connection already open");
    assert!(matches!(step.request, Request::ReadCommand));
    assert!(!step.close_data);
    assert!(c.has_data_channel());
}

#[test]
fn retr_connects_back_to_the_port_of_port() {
    let mut c = alice();
    line(&mut c, "PORT 1,2,3,4,39,136");
    let step = line(&mut c, "RETR a.txt");
    assert!(step.reply.is_none());
    assert!(matches!(&step.request, Request::Resolve(p) if p == "/srv/ftp/a.txt"));
    let step = c.handle_event(found("/srv/ftp/a.txt", EntryKind::File));
    assert!(step.reply.is_none());
    assert!(matches!(step.request, Request::Connect(10120)));
    assert!(!c.has_data_channel());
    let step = c.handle_event(Event::Connected(true));
    assert_eq!(said(&step), "125 Starting to send the file");
    assert!(matches!(&step.request, Request::OpenFile(p) if p == "/srv/ftp/a.txt"));
    assert!(c.has_data_channel());
    let step = c.handle_event(Event::Done(true));
    assert!(matches!(step.request, Request::ReadFile(8192)));
    let step = c.handle_event(Event::Chunk(Some(vec![7, 8])));
    assert!(matches!(&step.request, Request::Send(b) if b == &vec![7, 8]));
    c.handle_event(Event::Done(true));
    let step = c.handle_event(Event::Chunk(Some(vec![])));
    assert_eq!(said(&step), "226 Data connection closed, Transfer Done");
    assert!(step.close_data);
    assert!(!c.has_data_channel());
}

#[test]
fn list_connects_back_after_resolving() {
    let mut c = alice();
    line(&mut c, "PORT 1,2,3,4,8,0");
    let step = line(&mut c, "LIST -al sub");
    assert!(matches!(&step.request, Request::Resolve(p) if p == "/srv/ftp/sub"));
    let step = c.handle_event(found("/srv/ftp/sub", EntryKind::Directory));
    assert!(step.reply.is_none());
    assert!(matches!(step.request, Request::Connect(2048)));
    let step = c.handle_event(Event::Connected(true));
    assert_eq!(said(&step), "125 Starting to list directories");
    assert!(matches!(&step.request, Request::ListDirectory(p) if p == "/srv/ftp/sub"));
    let step = c.handle_event(Event::Entries(Some(vec![file("/srv/ftp/sub/x", 3)]), 1_550_000_000));
    assert!(matches!(&step.request, Request::Send(b) if b == b"-rw-r--r-- 1 ftp-rustified anonymous 3 Jan 01 00:00 x\r\n"));
    let step = c.handle_event(Event::Done(true));
    assert_eq!(said(&step), "226 Directories Transfer done");
    assert!(step.close_data);
}

#[test]
fn list_of_a_file_connects_back_and_inspects_it() {
    let mut c = alice();
    line(&mut c, "PORT 1,2,3,4,8,0");
    line(&mut c, "LIST a.txt");
    let step = c.handle_event(found("/srv/ftp/a.txt", EntryKind::File));
    assert!(matches!(step.request, Request::Connect(2048)));
    let step = c.handle_event(Event::Connected(true));
    assert!(matches!(&step.request, Request::Inspect(p) if p == "/srv/ftp/a.txt"));
}

#[test]
fn stor_connects_back_after_resolving() {
    let mut c = alice();
    line(&mut c, "PORT 1,2,3,4,8,0");
    let step = line(&mut c, "STOR up.bin");
    assert!(matches!(&step.request, Request::Resolve(p) if p == "/srv/ftp/"));
    let step = c.handle_event(found("/srv/ftp", EntryKind::Directory));
    assert!(step.reply.is_none());
    assert!(matches!(step.request, Request::Connect(2048)));
    let step = c.handle_event(Event::Connected(true));
    assert_eq!(said(&step), "125 Starting to Store the file");
    assert!(matches!(step.request, Request::Receive(8192)));
    c.handle_event(Event::Chunk(Some(vec![1])));
    let step = c.handle_event(Event::Chunk(Some(vec![])));
    assert!(matches!(&step.request, Request::WriteFile(p, d) if p == "/srv/ftp/up.bin" && d == &vec![1]));
}

#[test]
fn a_transfer_that_fails_to_resolve_connects_to_nobody() {
    let mut c = alice();
    line(&mut c, "PORT 1,2,3,4,39,136");
    line(&mut c, "RETR missing");
    let step = c.handle_event(Event::Resolved(None));
    assert_eq!(said(&step), "550 No such file or directory");
    assert!(matches!(step.request, Request::ReadCommand));
    assert!(!step.close_data);
    line(&mut c, "RETR config.json");
    let step = c.handle_event(found("/srv/ftp/config.json", EntryKind::File));
    assert_eq!(said(&step), "550 Permission denied");
    assert!(matches!(step.request, Request::ReadCommand));
    line(&mut c, "STOR config.json");
    let step = c.handle_event(found("/srv/ftp", EntryKind::Directory));
    assert_eq!(said(&step), "550 Permission denied");
    assert!(matches!(step.request, Request::ReadCommand));
    assert!(!c.has_data_channel());
}

#[test]
fn failing_to_connect_back_refuses_the_transfer() {
    let mut c = alice();
    line(&mut c, "PORT 1,2,3,4,39,136");
    line(&mut c, "RETR a.txt");
    c.handle_event(found("/srv/ftp/a.txt", EntryKind::File));
    let step = c.handle_event(Event::Connected(false));
    assert_eq!(said(&step), "425 Can't open data connection");
    assert!(matches!(step.request, Request::ReadCommand));
    assert!(!step.close_data);
    assert!(!c.has_data_channel());
    assert_eq!(said(&line(&mut c, "PWD")), "257 \"/\"");
}

#[test]
fn an_open_channel_is_used_before_connecting_back() {
    let mut c = alice();
    line(&mut c, "PORT 1,2,3,4,39,136");
    let step = line(&mut c, "PASV");
    assert!(matches!(step.request, Request::Listen(10120)));
    c.handle_event(Event::Listening(Some(10120)));
    c.handle_event(Event::Connected(true));
    line(&mut c, "RETR a.txt");
    let step = c.handle_event(found("/srv/ftp/a.txt", EntryKind::File));
    assert_eq!(said(&step), "125 Starting to send the file");
    assert!(matches!(&step.request, Request::OpenFile(p) if p == "/srv/ftp/a.txt"));
}

#[test]
fn mkd_then_cwd_then_pwd() {
    let mut c = alice();
    let step = line(&mut c, "MKD sub");
    assert!(step.reply.is_none());
    assert!(matches!(&step.request, Request::Resolve(p) if p == "/srv/ftp/"));
    let step = c.handle_event(found("/srv/ftp", EntryKind::Directory));
    assert!(step.reply.is_none());
    assert!(matches!(&step.request, Request::CreateDir(p) if p == "/srv/ftp/sub"));
    let step = c.handle_event(Event::Done(true));
    assert_eq!(said(&step), "257 Directory created");
    let step = line(&mut c, "CWD sub");
    assert!(step.reply.is_none());
    assert!(matches!(&step.request, Request::Resolve(p) if p == "/srv/ftp/sub"));
    let step = c.handle_event(found("/srv/ftp/sub", EntryKind::Directory));
    assert_eq!(said(&step), "250 Directory changed to \"sub\"");
    assert_eq!(said(&line(&mut c, "PWD")), "257 \"/sub\"");
}

#[test]
fn mkd_failures() {
    let mut c = alice();
    assert_eq!(said(&line(&mut c, "MKD")), "550 Unable to create Folder");
    assert_eq!(said(&line(&mut c, "MKD /")), "550 Unable to create Folder");
    assert_eq!(said(&line(&mut c, "MKD a/..")), "550 Unable to create Folder");
    line(&mut c, "MKD a/b");
    assert_eq!(said(&c.handle_event(Event::Resolved(None))), "550 Unable to create Folder");
    line(&mut c, "MKD a/b");
    assert_eq!(said(&c.handle_event(found("/etc", EntryKind::Directory))), "550 Unable to create Folder");
    line(&mut c, "MKD a/b");
    assert_eq!(said(&c.handle_event(found("/srv/ftp/a", EntryKind::File))), "550 Unable to create Folder");
    line(&mut c, "MKD a/b");
    c.handle_event(found("/srv/ftp/a", EntryKind::Directory));
    assert_eq!(said(&c.handle_event(Event::Done(false))), "550 Unable to create Folder");
    assert_eq!(said(&line(&mut c, "NOOP")), "200 No Operation");
}

#[test]
fn rmd_removes_a_directory_below_the_root() {
    let mut c = alice();
    let step = line(&mut c, "RMD /sub/dir");
    assert!(matches!(&step.request, Request::Resolve(p) if p == "/srv/ftp/sub/dir"));
    let step = c.handle_event(found("/srv/ftp/sub/dir", EntryKind::Directory));
    assert!(matches!(&step.request, Request::RemoveDir(p) if p == "/srv/ftp/sub/dir"));
    assert_eq!(said(&c.handle_event(Event::Done(true))), "250 Folder Removed successfully");
}

#[test]
fn rmd_failures() {
    let mut c = alice();
    line(&mut c, "RMD sub");
    assert_eq!(said(&c.handle_event(Event::Resolved(None))), "550 Couldn't Remove Folder");
    line(&mut c, "RMD ../../etc");
    assert_eq!(said(&c.handle_event(found("/etc", EntryKind::Directory))), "550 Couldn't Remove Folder");
    line(&mut c, "RMD a.txt");
    assert_eq!(said(&c.handle_event(found("/srv/ftp/a.txt", EntryKind::File))), "550 Couldn't Remove Folder");
    line(&mut c, "RMD sub");
    c.handle_event(found("/srv/ftp/sub", EntryKind::Directory));
    assert_eq!(said(&c.handle_event(Event::Done(false))), "550 Couldn't Remove Folder");
}

#[test]
fn cwd_follows_what_the_store_resolved() {
    let mut c = alice();
    let step = line(&mut c, "CWD a/../b");
    assert!(matches!(&step.request, Request::Resolve(p) if p == "/srv/ftp/a/../b"));
    let step = c.handle_event(found("/srv/ftp/b", EntryKind::Directory));
    assert_eq!(said(&step), "250 Directory changed to \"a/../b\"");
    assert_eq!(c.cwd(), "/b");
    let step = line(&mut c, "CWD c");
    assert!(matches!(&step.request, Request::Resolve(p) if p == "/srv/ftp/b/c"));
    c.handle_event(found("/srv/ftp/b/c", EntryKind::Directory));
    assert_eq!(c.cwd(), "/b/c");
    let step = line(&mut c, "CWD /x");
    assert!(matches!(&step.request, Request::Resolve(p) if p == "/srv/ftp/x"));
    c.handle_event(found("/srv/ftp/x", EntryKind::Directory));
    assert_eq!(c.cwd(), "/x");
    line(&mut c, "CWD /");
    c.handle_event(found("/srv/ftp", EntryKind::Directory));
    assert_eq!(c.cwd(), "/");
}

#[test]
fn cwd_outside_the_root_is_refused() {
    let escapes = ["../..", "/../../etc", "../../../../etc/passwd", "link-to-etc"];
    for dir in escapes {
        let mut c = alice();
        line(&mut c, "CWD /sub");
        c.handle_event(found("/srv/ftp/sub", EntryKind::Directory));
        line(&mut c, &format!("CWD {}", dir));
        let step = c.handle_event(found("/etc", EntryKind::Directory));
        assert_eq!(said(&step), "550 No such file or directory", "{}", dir);
        assert_eq!(c.cwd(), "/sub");
    }
}

#[test]
fn a_resolved_path_with_parent_dir_names_is_refused() {
    let mut c = alice();
    line(&mut c, "CWD sub");
    let step = c.handle_event(found("/srv/ftp/../../etc", EntryKind::Directory));
    assert_eq!(said(&step), "550 No such file or directory");
    assert_eq!(c.cwd(), "/");
    open_data(&mut c);
    line(&mut c, "RETR a");
    let step = c.handle_event(found("/srv/ftp/../../etc/passwd", EntryKind::File));
    assert_eq!(said(&step), "550 Permission denied");
    assert!(matches!(step.request, Request::ReadCommand));
}

#[test]
fn cwd_succeeds_whatever_the_resolved_path_names() {
    for kind in [EntryKind::Directory, EntryKind::File, EntryKind::Other] {
        let mut c = alice();
        line(&mut c, "CWD sub/item");
        let step = c.handle_event(found("/srv/ftp/sub/item", kind));
        assert_eq!(said(&step), "250 Directory changed to \"sub/item\"");
        assert!(matches!(step.request, Request::ReadCommand));
        assert_eq!(c.cwd(), "/sub/item");
        assert_eq!(said(&line(&mut c, "PWD")), "257 \"/sub/item\"");
    }
}

#[test]
fn cwd_failures_leave_the_directory() {
    let mut c = alice();
    line(&mut c, "CWD missing");
    assert_eq!(said(&c.handle_event(Event::Resolved(None))), "550 No such file or directory");
    assert_eq!(c.cwd(), "/");
    line(&mut c, "CWD /srv/ftp-other");
    assert_eq!(
        said(&c.handle_event(found("/srv/ftp-other", EntryKind::Directory))),
        "550 No such file or directory"
    );
    assert_eq!(c.cwd(), "/");
}

#[test]
fn cdup_goes_up_and_stops_at_the_root() {
    let mut c = alice();
    line(&mut c, "CWD /a/b");
    c.handle_event(found("/srv/ftp/a/b", EntryKind::Directory));
    assert_eq!(c.cwd(), "/a/b");
    assert_eq!(said(&line(&mut c, "CDUP")), "200 CDUP command successful");
    assert_eq!(c.cwd(), "/a");
    assert_eq!(said(&line(&mut c, "PWD")), "257 \"/a\"");
    line(&mut c, "CDUP");
    assert_eq!(c.cwd(), "/");
    assert_eq!(said(&line(&mut c, "CDUP")), "200 CDUP command successful");
    assert_eq!(c.cwd(), "/");
}

#[test]
fn stor_with_parent_dir_is_denied_before_any_write() {
    for cwd in ["/", "/a", "/a/b/c"] {
        let mut c = alice();
        if cwd != "/" {
            line(&mut c, &format!("CWD {}", cwd));
            c.handle_event(found(&format!("/srv/ftp{}", cwd), EntryKind::Directory));
        }
        open_data(&mut c);
        let step = line(&mut c, "STOR ../../etc/passwd");
        assert_eq!(said(&step), "550 Permission denied");
        assert!(matches!(step.request, Request::ReadCommand));
        assert!(step.close_data);
        assert!(!c.has_data_channel());
    }
}

#[test]
fn stor_with_parent_dir_is_denied_without_a_data_channel() {
    let mut c = alice();
    let step = line(&mut c, "STOR ../../etc/passwd");
    assert_eq!(said(&step), "550 Permission denied");
    assert!(matches!(step.request, Request::ReadCommand));
    assert!(!step.close_data);
}

#[test]
fn stor_receives_everything_then_writes() {
    let mut c = alice();
    line(&mut c, "CWD up");
    c.handle_event(found("/srv/ftp/up", EntryKind::Directory));
    open_data(&mut c);
    let step = line(&mut c, "STOR new file.bin");
    assert!(step.reply.is_none());
    assert!(matches!(&step.request, Request::Resolve(p) if p == "/srv/ftp/up"));
    let step = c.handle_event(found("/srv/ftp/up", EntryKind::Directory));
    assert_eq!(said(&step), "125 Starting to Store the file");
    assert!(matches!(step.request, Request::Receive(CHUNK_SIZE)));
    let step = c.handle_event(Event::Chunk(Some(vec![1, 2, 3])));
    assert!(step.reply.is_none());
    assert!(matches!(step.request, Request::Receive(CHUNK_SIZE)));
    let step = c.handle_event(Event::Chunk(Some(vec![4, 5])));
    assert!(matches!(step.request, Request::Receive(CHUNK_SIZE)));
    let step = c.handle_event(Event::Chunk(Some(vec![])));
    assert!(step.reply.is_none());
    assert!(!step.close_data);
    assert!(
        matches!(&step.request, Request::WriteFile(p, data) if p == "/srv/ftp/up/new file.bin" && data == &vec![1, 2, 3, 4, 5])
    );
    let step = c.handle_event(Event::Done(true));
    assert_eq!(said(&step), "226 Data connection closed, Transfer Done");
    assert!(step.close_data);
    assert!(matches!(step.request, Request::ReadCommand));
    assert!(!c.has_data_channel());
}

#[test]
fn stor_of_an_empty_file() {
    let mut c = alice();
    open_data(&mut c);
    line(&mut c, "STOR empty");
    c.handle_event(found("/srv/ftp", EntryKind::Directory));
    let step = c.handle_event(Event::Chunk(Some(vec![])));
    assert!(matches!(&step.request, Request::WriteFile(p, data) if p == "/srv/ftp/empty" && data.is_empty()));
}

#[test]
fn stor_without_a_data_channel() {
    let mut c = alice();
    let step = line(&mut c, "STOR a.txt");
    assert_eq!(said(&step), "426 No opened data connection");
    assert!(matches!(step.request, Request::ReadCommand));
}

#[test]
fn stor_of_the_protected_file() {
    let mut c = alice();
    open_data(&mut c);
    line(&mut c, "STOR config.json");
    let step = c.handle_event(found("/srv/ftp", EntryKind::Directory));
    assert_eq!(said(&step), "550 Permission denied");
    assert!(step.close_data);
    assert!(matches!(step.request, Request::ReadCommand));
    let mut c = admin();
    open_data(&mut c);
    line(&mut c, "STOR config.json");
    let step = c.handle_event(found("/srv/ftp", EntryKind::Directory));
    assert_eq!(said(&step), "125 Starting to Store the file");
}

#[test]
fn stor_failures_close_the_channel() {
    let mut c = alice();
    open_data(&mut c);
    line(&mut c, "STOR sub/a.txt");
    let step = c.handle_event(found("/var/elsewhere", EntryKind::Directory));
    assert_eq!(said(&step), "550 Permission denied");
    assert!(step.close_data);
    open_data(&mut c);
    line(&mut c, "STOR sub/a.txt");
    assert_eq!(said(&c.handle_event(Event::Resolved(None))), "550 No such file or directory");
    open_data(&mut c);
    line(&mut c, "STOR sub/a.txt");
    assert_eq!(
        said(&c.handle_event(found("/srv/ftp/sub", EntryKind::File))),
        "550 No such file or directory"
    );
    open_data(&mut c);
    assert_eq!(said(&line(&mut c, "STOR /")), "550 No such file or directory");
    open_data(&mut c);
    line(&mut c, "STOR a.txt");
    c.handle_event(found("/srv/ftp", EntryKind::Directory));
    let step = c.handle_event(Event::Chunk(None));
    assert_eq!(said(&step), "451 Local error in processing");
    assert!(step.close_data);
    open_data(&mut c);
    line(&mut c, "STOR a.txt");
    c.handle_event(found("/srv/ftp", EntryKind::Directory));
    c.handle_event(Event::Chunk(Some(vec![])));
    let step = c.handle_event(Event::Done(false));
    assert_eq!(said(&step), "451 Local error in processing");
    assert!(step.close_data);
    assert!(!c.has_data_channel());
    assert_eq!(said(&line(&mut c, "NOOP")), "200 No Operation");
}

#[test]
fn retr_streams_the_file_in_chunks() {
    let mut c = alice();
    open_data(&mut c);
    let step = line(&mut c, "RETR existing_file.txt");
    assert!(step.reply.is_none());
    assert!(matches!(&step.request, Request::Resolve(p) if p == "/srv/ftp/existing_file.txt"));
    let step = c.handle_event(found("/srv/ftp/existing_file.txt", EntryKind::File));
    assert_eq!(said(&step), "125 Starting to send the file");
    assert_eq!(step.reply.as_ref().unwrap().code.number() / 100, 1);
    assert!(matches!(&step.request, Request::OpenFile(p) if p == "/srv/ftp/existing_file.txt"));
    let contents: Vec<u8> = (0..20_000u32).map(|i| (i % 256) as u8).collect();
    let mut sent: Vec<u8> = Vec::new();
    let mut replies: Vec<String> = vec![said(&step)];
    let mut step = c.handle_event(Event::Done(true));
    let mut offset = 0;
    loop {
        if step.reply.is_some() {
            replies.push(said(&step));
        }
        match step.request {
            Request::ReadFile(n) => {
                assert_eq!(n, 8192);
                let end = (offset + n).min(contents.len());
                let chunk = contents[offset..end].to_vec();
                offset = end;
                step = c.handle_event(Event::Chunk(Some(chunk)));
            }
            Request::Send(bytes) => {
                assert!(!bytes.is_empty() && bytes.len() <= 8192);
                sent.extend_from_slice(&bytes);
                step = c.handle_event(Event::Done(true));
            }
            Request::ReadCommand => break,
            other => panic!("unexpected request {:?}", other),
        }
    }
    assert_eq!(sent, contents);
    assert_eq!(replies, vec!["125 Starting to send the file", "226 Data connection closed, Transfer Done"]);
    assert!(step.close_data);
    assert!(!c.has_data_channel());
}

#[test]
fn retr_of_an_empty_file() {
    let mut c = alice();
    open_data(&mut c);
    line(&mut c, "RETR empty");
    c.handle_event(found("/srv/ftp/empty", EntryKind::File));
    let step = c.handle_event(Event::Done(true));
    assert!(matches!(step.request, Request::ReadFile(8192)));
    let step = c.handle_event(Event::Chunk(Some(vec![])));
    assert_eq!(said(&step), "226 Data connection closed, Transfer Done");
    assert!(step.close_data);
}

#[test]
fn retr_without_a_data_channel() {
    let mut c = alice();
    let step = line(&mut c, "RETR a.txt");
    assert_eq!(said(&step), "426 No opened data connection");
    assert!(matches!(step.request, Request::ReadCommand));
}

#[test]
fn retr_failures_close_the_channel() {
    let mut c = alice();
    open_data(&mut c);
    line(&mut c, "RETR missing");
    let step = c.handle_event(Event::Resolved(None));
    assert_eq!(said(&step), "550 No such file or directory");
    assert!(step.close_data);
    assert!(!c.has_data_channel());
    open_data(&mut c);
    line(&mut c, "RETR sub");
    assert_eq!(
        said(&c.handle_event(found("/srv/ftp/sub", EntryKind::Directory))),
        "550 No such file or directory"
    );
    open_data(&mut c);
    line(&mut c, "RETR link");
    assert_eq!(said(&c.handle_event(found("/etc/passwd", EntryKind::File))), "550 Permission denied");
    open_data(&mut c);
    line(&mut c, "RETR a.txt");
    c.handle_event(found("/srv/ftp/a.txt", EntryKind::File));
    assert_eq!(said(&c.handle_event(Event::Done(false))), "451 Local error in processing");
    open_data(&mut c);
    line(&mut c, "RETR a.txt");
    c.handle_event(found("/srv/ftp/a.txt", EntryKind::File));
    c.handle_event(Event::Done(true));
    assert_eq!(said(&c.handle_event(Event::Chunk(None))), "451 Local error in processing");
    open_data(&mut c);
    line(&mut c, "RETR a.txt");
    c.handle_event(found("/srv/ftp/a.txt", EntryKind::File));
    c.handle_event(Event::Done(true));
    c.handle_event(Event::Chunk(Some(vec![1])));
    let step = c.handle_event(Event::Done(false));
    assert_eq!(said(&step), "451 Local error in processing");
    assert!(step.close_data);
    assert!(!c.has_data_channel());
}

#[test]
fn retr_of_the_protected_file() {
    let mut c = alice();
    open_data(&mut c);
    line(&mut c, "RETR config.json");
    let step = c.handle_event(found("/srv/ftp/config.json", EntryKind::File));
    assert_eq!(said(&step), "550 Permission denied");
    assert!(matches!(step.request, Request::ReadCommand));
    let mut c = admin();
    open_data(&mut c);
    line(&mut c, "RETR config.json");
    let step = c.handle_event(found("/srv/ftp/config.json", EntryKind::File));
    assert_eq!(said(&step), "125 Starting to send the file");
}

#[test]
fn list_without_a_data_channel_asks_nothing_of_the_store() {
    let mut c = alice();
    for l in ["LIST", "LIST -al", "LIST sub"] {
        let step = line(&mut c, l);
        assert_eq!(said(&step), "426 No opened data connection");
        assert!(matches!(step.request, Request::ReadCommand));
    }
}

fn listing(c: &mut Client, command: &str, resolved: &str, kind: EntryKind, entries: Vec<FileInfo>) -> String {
    open_data(c);
    let step = line(c, command);
    assert!(step.reply.is_none());
    assert!(matches!(step.request, Request::Resolve(_)));
    let step = c.handle_event(found(resolved, kind));
    assert_eq!(said(&step), "125 Starting to list directories");
    match (&step.request, kind) {
        (Request::ListDirectory(p), EntryKind::Directory) => assert_eq!(p, resolved),
        (Request::Inspect(p), _) => assert_eq!(p, resolved),
        other => panic!("unexpected request {:?}", other),
    }
    let step = c.handle_event(Event::Entries(Some(entries), 1_550_000_000));
    assert!(step.reply.is_none());
    let bytes = match step.request {
        Request::Send(bytes) => bytes,
        other => panic!("unexpected request {:?}", other),
    };
    let step = c.handle_event(Event::Done(true));
    assert_eq!(said(&step), "226 Directories Transfer done");
    assert!(step.close_data);
    assert!(!c.has_data_channel());
    String::from_utf8(bytes).unwrap()
}

#[test]
fn list_of_the_working_directory() {
    let mut c = alice();
    let entries = vec![file("/srv/ftp/a.txt", 10), file("/srv/ftp/b.txt", 20)];
    let out = listing(&mut c, "LIST", "/srv/ftp", EntryKind::Directory, entries);
    assert_eq!(
        out,
        "-rw-r--r-- 1 ftp-rustified anonymous 10 Jan 01 00:00 a.txt\r\n\
         -rw-r--r-- 1 ftp-rustified anonymous 20 Jan 01 00:00 b.txt\r\n"
    );
}

#[test]
fn list_resolves_the_path_after_the_flag() {
    let cases = [
        ("LIST", "/srv/ftp/"),
        ("LIST -al", "/srv/ftp/"),
        ("LIST -x", "/srv/ftp/"),
        ("LIST sub", "/srv/ftp/sub"),
        ("LIST -al sub/dir", "/srv/ftp/sub/dir"),
        ("LIST /top", "/srv/ftp/top"),
    ];
    for (command, expected) in cases {
        let mut c = alice();
        open_data(&mut c);
        let step = line(&mut c, command);
        assert!(matches!(&step.request, Request::Resolve(p) if p == expected), "{}", command);
    }
}

#[test]
fn list_hides_the_protected_file_from_users_only() {
    let entries = || vec![file("/srv/ftp/a.txt", 10), file("/srv/ftp/config.json", 20)];
    let mut c = alice();
    let out = listing(&mut c, "LIST -al", "/srv/ftp", EntryKind::Directory, entries());
    assert_eq!(out, "-rw-r--r-- 1 ftp-rustified anonymous 10 Jan 01 00:00 a.txt\r\n");
    let mut c = admin();
    let out = listing(&mut c, "LIST -al", "/srv/ftp", EntryKind::Directory, entries());
    assert_eq!(
        out,
        "-rw-r--r-- 1 ftp-rustified anonymous 10 Jan 01 00:00 a.txt\r\n\
         -rw-r--r-- 1 ftp-rustified anonymous 20 Jan 01 00:00 config.json\r\n"
    );
}

#[test]
fn list_of_a_single_file() {
    let mut c = alice();
    let out = listing(&mut c, "LIST a.txt", "/srv/ftp/a.txt", EntryKind::File, vec![file("/srv/ftp/a.txt", 10)]);
    assert_eq!(out, "-rw-r--r-- 1 ftp-rustified anonymous 10 Jan 01 00:00 a.txt\r\n");
    let out = listing(
        &mut c,
        "LIST config.json",
        "/srv/ftp/config.json",
        EntryKind::File,
        vec![file("/srv/ftp/config.json", 10)],
    );
    assert_eq!(out, "");
}

#[test]
fn list_failures_close_the_channel() {
    let mut c = alice();
    open_data(&mut c);
    line(&mut c, "LIST missing");
    let step = c.handle_event(Event::Resolved(None));
    assert_eq!(said(&step), "550 No such file or directory");
    assert!(step.close_data);
    open_data(&mut c);
    line(&mut c, "LIST ../..");
    let step = c.handle_event(found("/", EntryKind::Directory));
    assert_eq!(said(&step), "550 Permission denied");
    assert!(matches!(step.request, Request::ReadCommand));
    open_data(&mut c);
    line(&mut c, "LIST");
    c.handle_event(found("/srv/ftp", EntryKind::Directory));
    let step = c.handle_event(Event::Entries(None, 0));
    assert_eq!(said(&step), "451 Local error in processing");
    assert!(step.close_data);
    open_data(&mut c);
    line(&mut c, "LIST");
    c.handle_event(found("/srv/ftp", EntryKind::Directory));
    c.handle_event(Event::Entries(Some(vec![]), 0));
    let step = c.handle_event(Event::Done(false));
    assert_eq!(said(&step), "451 Local error in processing");
    assert!(!c.has_data_channel());
}

#[test]
fn quit_ends_the_session() {
    let mut c = client();
    let step = line(&mut c, "QUIT");
    assert_eq!(said(&step), "221 Closing Connection...");
    assert!(matches!(step.request, Request::Close));
    assert!(!step.close_data);
    assert!(c.is_closed());
    let step = line(&mut c, "NOOP");
    assert!(step.reply.is_none());
    assert!(matches!(step.request, Request::Close));
}

#[test]
fn an_ended_session_serves_nothing() {
    let mut c = alice();
    line(&mut c, "QUIT");
    for step in [
        c.handle_command(Command::NOOP),
        c.handle_line("PWD"),
        c.handle_line("PORT x"),
        c.handle_event(Event::Done(true)),
        c.handle_event(Event::Disconnected),
    ] {
        assert!(step.reply.is_none());
        assert!(!step.close_data);
        assert!(matches!(step.request, Request::Close));
    }
    assert!(c.is_closed());
}

#[test]
fn quit_closes_an_open_data_channel() {
    let mut c = alice();
    open_data(&mut c);
    let step = line(&mut c, "QUIT");
    assert_eq!(said(&step), "221 Closing Connection...");
    assert!(step.close_data);
    assert!(matches!(step.request, Request::Close));
    assert!(!c.has_data_channel());
}

#[test]
fn disconnect_closes_everything() {
    let mut c = alice();
    open_data(&mut c);
    let step = c.handle_event(Event::Disconnected);
    assert!(step.reply.is_none());
    assert!(step.close_data);
    assert!(matches!(step.request, Request::Close));
    assert!(c.is_closed());
}

#[test]
fn unexpected_events_are_ignored_when_idle() {
    let mut c = alice();
    for event in [Event::Done(true), Event::Chunk(None), Event::Resolved(None), Event::Connected(true), Event::Listening(Some(1))] {
        let step = c.handle_event(event);
        assert!(step.reply.is_none());
        assert!(!step.close_data);
        assert!(matches!(step.request, Request::ReadCommand));
    }
    assert!(!c.has_data_channel());
    assert_eq!(said(&line(&mut c, "PWD")), "257 \"/\"");
}

#[test]
fn unexpected_events_give_up_what_is_pending() {
    let mut c = alice();
    line(&mut c, "CWD sub");
    let step = c.handle_event(Event::Done(true));
    assert_eq!(said(&step), "451 Local error in processing");
    assert!(!step.close_data);
    assert_eq!(c.cwd(), "/");
    open_data(&mut c);
    line(&mut c, "RETR a.txt");
    let step = c.handle_event(Event::Connected(true));
    assert_eq!(said(&step), "451 Local error in processing");
    assert!(step.close_data);
    assert!(!c.has_data_channel());
}

#[test]
fn handle_command_serves_parsed_commands() {
    let mut c = client();
    let step = c.handle_command(Command::USER("guest".to_string()));
    assert_eq!(said(&step), "230 Welcome guest!");
    let step = c.handle_command(Command::PORT(2000));
    assert_eq!(said(&step), "200 PORT command successful, PORT: 2000");
    let step = c.handle_command(Command::PASS("x".to_string()));
    assert_eq!(said(&step), "530 Please Log In first");
    let step = c.handle_line("pwd");
    assert_eq!(said(&step), "257 \"/\"");
}

#[test]
fn every_store_request_lies_below_the_root() {
    let lines = [
        "CWD ../../etc", "CWD /etc/passwd", "LIST ../..", "LIST -al /../x", "RETR ../../etc/passwd",
        "RETR /etc/passwd", "STOR /etc/passwd", "STOR a/b", "MKD ../../x", "MKD /../x", "RMD ../..",
        "RMD /", "CWD a/./b//c", "RETR \u{e9}t\u{e9}/../x",
    ];
    for l in lines {
        for cwd in ["/", "/sub", "/a/b"] {
            let mut c = alice();
            if cwd != "/" {
                line(&mut c, &format!("CWD {}", cwd));
                c.handle_event(found(&format!("/srv/ftp{}", cwd), EntryKind::Directory));
            }
            open_data(&mut c);
            let step = line(&mut c, l);
            if let Request::Resolve(p) = &step.request {
                assert!(p.starts_with("/srv/ftp/"), "{} gives {}", l, p);
                let step = c.handle_event(found("/etc/passwd", EntryKind::File));
                assert!(matches!(step.request, Request::ReadCommand), "{}", l);
                assert_eq!(step.reply.unwrap().code.number() / 100, 5, "{}", l);
            }
        }
    }
}
