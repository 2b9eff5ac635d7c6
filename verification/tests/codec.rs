use bytes::BytesMut;
use ftp_rustified::client_command::Command;
use ftp_rustified::codec::{decode_line, find_crlf, BytesCodec, FtpCodec};
use ftp_rustified::error::FtpError;
use ftp_rustified::ftp_response::Response;
use ftp_rustified::ftp_response_code::ResponseCode;

#[test]
fn find_crlf_gives_the_first_line_ending() {
    assert_eq!(find_crlf(&BytesMut::from(&b"USER alice\r\nPASS x\r\n"[..])), Some(10));
    assert_eq!(find_crlf(&BytesMut::from(&b"\r\n"[..])), Some(0));
    assert_eq!(find_crlf(&BytesMut::from(&b"a\r\r\n"[..])), Some(2));
}

#[test]
fn find_crlf_without_a_line_ending() {
    assert_eq!(find_crlf(&BytesMut::from(&b"USER alice"[..])), None);
    assert_eq!(find_crlf(&BytesMut::from(&b"USER alice\r"[..])), None);
    assert_eq!(find_crlf(&BytesMut::from(&b"USER\nalice\n\r"[..])), None);
    assert_eq!(find_crlf(&BytesMut::new()), None);
}

#[test]
fn decode_takes_one_line_at_a_time() {
    let mut codec = FtpCodec;
    let mut buf = BytesMut::from(&b"USER alice\r\nPWD\r\nQU"[..]);
    assert!(matches!(codec.decode(&mut buf), Ok(Some(Command::USER(n))) if n == "alice"));
    assert_eq!(&buf[..], b"PWD\r\nQU");
    assert!(matches!(codec.decode(&mut buf), Ok(Some(Command::PWD))));
    assert_eq!(&buf[..], b"QU");
    assert!(matches!(codec.decode(&mut buf), Ok(None)));
    assert_eq!(&buf[..], b"QU");
    buf.extend_from_slice(b"IT\r\n");
    assert!(matches!(codec.decode(&mut buf), Ok(Some(Command::QUIT))));
    assert!(buf.is_empty());
}

#[test]
fn decode_of_a_long_line_keeps_what_follows() {
    let mut codec = FtpCodec;
    let name = "n".repeat(100);
    let mut buf = BytesMut::from(format!("STOR {}\r\nNOOP\r\n", name).as_bytes());
    assert!(matches!(codec.decode(&mut buf), Ok(Some(Command::STOR(p))) if p == name));
    assert_eq!(&buf[..], b"NOOP\r\n");
}

#[test]
fn decode_reports_a_malformed_line_and_goes_on() {
    let mut codec = FtpCodec;
    let mut buf = BytesMut::from(&b"PORT 1,2,3\r\nNOOP\r\n"[..]);
    assert!(matches!(codec.decode(&mut buf), Err(FtpError::Msg(m)) if m == "Invalid address/port"));
    assert!(matches!(codec.decode(&mut buf), Ok(Some(Command::NOOP))));
}

#[test]
fn decode_reports_a_line_that_is_not_utf8() {
    let mut codec = FtpCodec;
    let mut buf = BytesMut::from(&b"USER \xff\xfe\r\nNOOP\r\n"[..]);
    assert!(matches!(codec.decode(&mut buf), Err(FtpError::Utf8)));
    assert_eq!(&buf[..], b"NOOP\r\n");
}

#[test]
fn decode_line_reads_utf8_text() {
    assert!(matches!(
        decode_line("CWD d\u{e9}p\u{f4}t".as_bytes().to_vec()),
        Ok(Some(Command::CWD(p))) if p == "d\u{e9}p\u{f4}t"
    ));
    assert!(matches!(decode_line(vec![0xc3]), Err(FtpError::Utf8)));
    assert!(matches!(decode_line(vec![]), Ok(Some(Command::UNKNOWN(v))) if v.is_empty()));
}

#[test]
fn encode_appends_the_line_of_the_reply() {
    let mut codec = FtpCodec;
    let mut buf = BytesMut::from(&b"220 hi\r\n"[..]);
    codec.encode(Response::new(ResponseCode::Okay, "No Operation"), &mut buf).unwrap();
    codec.encode(Response::new(ResponseCode::UserLoggedIn, ""), &mut buf).unwrap();
    assert_eq!(&buf[..], b"220 hi\r\n200 No Operation\r\n230\r\n");
}

#[test]
fn bytes_codec_passes_bytes_through() {
    let mut codec = BytesCodec;
    let mut buf = BytesMut::new();
    assert!(matches!(codec.decode(&mut buf), Ok(None)));
    codec.encode(vec![1, 2, 3], &mut buf).unwrap();
    codec.encode(vec![], &mut buf).unwrap();
    codec.encode(vec![4], &mut buf).unwrap();
    assert_eq!(&buf[..], &[1, 2, 3, 4]);
    assert_eq!(codec.decode(&mut buf).unwrap(), Some(vec![1, 2, 3, 4]));
    assert!(buf.is_empty());
    assert!(matches!(codec.decode(&mut buf), Ok(None)));
}

#[test]
fn bytes_codec_handles_large_buffers() {
    let mut codec = BytesCodec;
    let mut buf = BytesMut::new();
    let data: Vec<u8> = (0..20_000u32).map(|i| (i % 251) as u8).collect();
    codec.encode(data.clone(), &mut buf).unwrap();
    codec.encode(data.clone(), &mut buf).unwrap();
    let out = codec.decode(&mut buf).unwrap().unwrap();
    assert_eq!(out.len(), 40_000);
    assert_eq!(&out[..20_000], &data[..]);
    assert_eq!(&out[20_000..], &data[..]);
}
