//! Framing on the two connections: command lines and replies on the control
//! connection, raw bytes on the data channel.

use vstd::prelude::*;
use vstd::utf8::{decode_utf8, encode_utf8, valid_utf8};
use crate::client_command::{parse, Command};
use crate::error::FtpError;
use crate::ftp_response::Response;

verus! {

/// Declares the buffer type of the `bytes` crate. Nothing is known of a
/// buffer but the bytes it holds, `buffer_bytes`.
#[verifier::external_type_specification]
#[verifier::external_body]
pub struct ExBytesMut(bytes::BytesMut);

/// Declares the error of `String::from_utf8`. It is only ever told apart
/// from success.
#[verifier::external_type_specification]
#[verifier::external_body]
pub struct ExFromUtf8Error(std::string::FromUtf8Error);

/// The most bytes that a buffer can hold: the largest size of an
/// allocation.
pub open spec fn max_buffer_len() -> int {
    usize::MAX as int / 2
}

/// The bytes that a buffer holds, in order.
pub uninterp spec fn buffer_bytes(buf: bytes::BytesMut) -> Seq<u8>;

/// The number of bytes in the buffer.
///
/// Trusted: wraps `BytesMut::len`, the number of bytes that the buffer
/// holds.
#[verifier::external_body]
fn buffer_len(buf: &bytes::BytesMut) -> (n: usize)
    ensures
        n == buffer_bytes(*buf).len(),
{
    buf.len()
}

/// The byte at index `i` of the buffer.
///
/// Trusted: indexes the buffer as the slice of its bytes; `requires` keeps
/// the index in range, outside of which the indexing panics.
#[verifier::external_body]
fn buffer_byte(buf: &bytes::BytesMut, i: usize) -> (b: u8)
    requires
        i < buffer_bytes(*buf).len(),
    ensures
        b == buffer_bytes(*buf)[i as int],
{
    buf[i]
}

/// Takes the first `at` bytes out of the buffer.
///
/// Trusted: wraps `BytesMut::split_to`, after which the buffer holds the
/// bytes from `at` on and the result holds those before `at`. It panics
/// where `at` is more than the length, which `requires` leaves out.
#[verifier::external_body]
fn buffer_split_to(buf: &mut bytes::BytesMut, at: usize) -> (head: bytes::BytesMut)
    requires
        at <= buffer_bytes(*old(buf)).len(),
    ensures
        buffer_bytes(head) == buffer_bytes(*old(buf)).take(at as int),
        buffer_bytes(*final(buf)) == buffer_bytes(*old(buf)).skip(at as int),
{
    buf.split_to(at)
}

/// A copy of the bytes of the buffer.
///
/// Trusted: copies the slice of the buffer's bytes into a vector.
#[verifier::external_body]
fn buffer_to_vec(buf: &bytes::BytesMut) -> (v: Vec<u8>)
    ensures
        v@ == buffer_bytes(*buf),
{
    buf.to_vec()
}

/// Appends `data` to the buffer.
///
/// Trusted: wraps `BytesMut::extend_from_slice`, which appends the given
/// bytes and grows the buffer where it must. Growing panics where the new
/// length is more than an allocation can hold, which `requires` leaves out.
#[verifier::external_body]
fn buffer_extend(buf: &mut bytes::BytesMut, data: &[u8])
    requires
        buffer_bytes(*old(buf)).len() + data@.len() <= max_buffer_len(),
    ensures
        buffer_bytes(*final(buf)) == buffer_bytes(*old(buf)) + data@,
{
    buf.extend_from_slice(data)
}

/// Empties the buffer.
///
/// Trusted: wraps `BytesMut::clear`, which sets the length to 0.
#[verifier::external_body]
fn buffer_clear(buf: &mut bytes::BytesMut)
    ensures
        buffer_bytes(*final(buf)) == Seq::<u8>::empty(),
{
    buf.clear()
}

/// The text that the bytes encode.
///
/// Trusted: wraps `String::from_utf8`, which gives the string whose UTF-8
/// bytes these are, and fails exactly where the bytes are not valid UTF-8.
#[verifier::external_body]
fn text_from_utf8(bytes: Vec<u8>) -> (r: Result<String, std::string::FromUtf8Error>)
    ensures
        r is Ok <==> valid_utf8(bytes@),
        r is Ok ==> r->Ok_0@ == decode_utf8(bytes@),
{
    String::from_utf8(bytes)
}

/// Whether a line ending, CR LF, stands at index `i` of `s`.
pub open spec fn crlf_at(s: Seq<u8>, i: int) -> bool {
    0 <= i && i + 1 < s.len() && s[i] == 0x0d && s[i + 1] == 0x0a
}

/// The index of the first line ending of `s` at or after `from`.
pub open spec fn crlf_from(s: Seq<u8>, from: int) -> Option<int>
    decreases s.len() - from,
{
    if from < 0 || from + 1 >= s.len() {
        None
    } else if crlf_at(s, from) {
        Some(from)
    } else {
        crlf_from(s, from + 1)
    }
}

/// The index of the first line ending of `s`.
pub open spec fn first_crlf(s: Seq<u8>) -> Option<int> {
    crlf_from(s, 0)
}

/// The first line ending is the only index that holds a line ending with
/// none before it; there is none exactly where no index holds one.
pub proof fn lemma_first_crlf(s: Seq<u8>, from: int)
    requires
        0 <= from,
    ensures
        match crlf_from(s, from) {
            Some(i) => from <= i && crlf_at(s, i) && forall|j: int|
                from <= j < i ==> !crlf_at(s, j),
            None => forall|j: int| from <= j ==> !crlf_at(s, j),
        },
    decreases s.len() - from,
{
    if from + 1 < s.len() && !crlf_at(s, from) {
        lemma_first_crlf(s, from + 1);
    }
}

/// The index of the first line ending in the buffer.
pub fn find_crlf(buf: &bytes::BytesMut) -> (r: Option<usize>)
    ensures
        match first_crlf(buffer_bytes(*buf)) {
            Some(i) => r is Some && r->Some_0 as int == i,
            None => r is None,
        },
{
    let n = buffer_len(buf);
    let mut i: usize = 0;
    while i < n && i + 1 < n
        invariant
            n == buffer_bytes(*buf).len(),
            i <= n,
            first_crlf(buffer_bytes(*buf)) == crlf_from(buffer_bytes(*buf), i as int),
        decreases n - i,
    {
        if buffer_byte(buf, i) == 0x0d && buffer_byte(buf, i + 1) == 0x0a {
            return Some(i);
        }
        i += 1;
    }
    None
}

/// What decoding a command takes from the bytes `s` of a buffer: nothing
/// where no line is complete, else the first line and its ending.
pub open spec fn after_line(s: Seq<u8>) -> Seq<u8> {
    match first_crlf(s) {
        Some(i) => s.skip(i + 2),
        None => s,
    }
}

/// What the bytes of one line, without its ending, hold: a command, or the
/// failure to read one.
pub open spec fn line_result(line: Seq<u8>, r: Result<Option<Command>, FtpError>) -> bool {
    if !valid_utf8(line) {
        r matches Err(FtpError::Utf8)
    } else {
        match parse(decode_utf8(line)) {
            Ok(c) => r matches Ok(Some(cmd)) && cmd@ == c,
            Err(m) => r matches Err(FtpError::Msg(s)) && s@ == m,
        }
    }
}

/// Reads the bytes of one line, without its ending, as a command.
pub fn decode_line(line: Vec<u8>) -> (r: Result<Option<Command>, FtpError>)
    ensures
        line_result(line@, r),
{
    match text_from_utf8(line) {
        Ok(text) => match Command::new(text.as_str()) {
            Ok(command) => Ok(Some(command)),
            Err(e) => Err(e),
        },
        Err(_) => Err(FtpError::Utf8),
    }
}

/// Appends `data` to the buffer, unless the result would be more than a
/// buffer can hold.
fn append(buf: &mut bytes::BytesMut, data: Vec<u8>) -> (r: Result<(), FtpError>)
    ensures
        buffer_bytes(*old(buf)).len() + data@.len() <= max_buffer_len() ==> r is Ok
            && buffer_bytes(*final(buf)) == buffer_bytes(*old(buf)) + data@,
        buffer_bytes(*old(buf)).len() + data@.len() > max_buffer_len() ==> (r matches Err(
            FtpError::Io,
        )) && buffer_bytes(*final(buf)) == buffer_bytes(*old(buf)),
{
    let held = buffer_len(buf);
    let limit = usize::MAX / 2;
    if held > limit || data.len() > limit - held {
        return Err(FtpError::Io);
    }
    buffer_extend(buf, data.as_slice());
    Ok(())
}

/// The codec of the control connection: it reads commands and writes
/// replies.
pub struct FtpCodec;

/// The codec of the data channel: it passes bytes through.
pub struct BytesCodec;

impl FtpCodec {
    /// Takes the first complete line out of the buffer and reads it as a
    /// command. Where no line is complete yet, the buffer is left as it is
    /// and there is no command. A line that is not UTF-8 text, or that is
    /// malformed, is taken out all the same and gives the error.
    pub fn decode(&mut self, buf: &mut bytes::BytesMut) -> (r: Result<Option<Command>, FtpError>)
        ensures
            buffer_bytes(*final(buf)) == after_line(buffer_bytes(*old(buf))),
            match first_crlf(buffer_bytes(*old(buf))) {
                None => r matches Ok(None),
                Some(i) => line_result(buffer_bytes(*old(buf)).take(i), r),
            },
    {
        proof {
            lemma_first_crlf(buffer_bytes(*buf), 0);
        }
        if let Some(index) = find_crlf(buf) {
            let ghost all = buffer_bytes(*buf);
            let line = buffer_split_to(buf, index);
            // To remove \r\n
            let _ = buffer_split_to(buf, 2);
            assert(all.skip(index as int).skip(2) =~= all.skip(index + 2));
            decode_line(buffer_to_vec(&line))
        } else {
            Ok(None)
        }
    }

    /// Appends the line of the reply to the buffer. Fails, and leaves the
    /// buffer as it is, only where the result would be more than a buffer
    /// can hold.
    pub fn encode(&mut self, resp: Response, buf: &mut bytes::BytesMut) -> (r: Result<(), FtpError>)
        ensures
            buffer_bytes(*old(buf)).len() + encode_utf8(resp.line()).len() <= max_buffer_len()
                ==> r is Ok && buffer_bytes(*final(buf)) == buffer_bytes(*old(buf)) + encode_utf8(
                resp.line(),
            ),
            buffer_bytes(*old(buf)).len() + encode_utf8(resp.line()).len() > max_buffer_len() ==> (r
                matches Err(FtpError::Io)) && buffer_bytes(*final(buf)) == buffer_bytes(*old(buf)),
    {
        let buffer = resp.encode();
        append(buf, buffer)
    }
}

impl BytesCodec {
    /// Takes all the bytes out of the buffer; nothing where it is empty.
    pub fn decode(&mut self, src: &mut bytes::BytesMut) -> (r: Result<Option<Vec<u8>>, FtpError>)
        ensures
            buffer_bytes(*final(src)) == Seq::<u8>::empty(),
            buffer_bytes(*old(src)).len() == 0 ==> r matches Ok(None),
            buffer_bytes(*old(src)).len() > 0 ==> (r matches Ok(Some(data)) && data@
                == buffer_bytes(*old(src))),
    {
        if buffer_len(src) == 0 {
            assert(buffer_bytes(*src) =~= Seq::<u8>::empty());
            Ok(None)
        } else {
            let data = buffer_to_vec(src);
            buffer_clear(src);
            Ok(Some(data))
        }
    }

    /// Appends the bytes to the buffer. Fails, and leaves the buffer as it
    /// is, only where the result would be more than a buffer can hold.
    pub fn encode(&mut self, item: Vec<u8>, dst: &mut bytes::BytesMut) -> (r: Result<(), FtpError>)
        ensures
            buffer_bytes(*old(dst)).len() + item@.len() <= max_buffer_len() ==> r is Ok
                && buffer_bytes(*final(dst)) == buffer_bytes(*old(dst)) + item@,
            buffer_bytes(*old(dst)).len() + item@.len() > max_buffer_len() ==> (r matches Err(
                FtpError::Io,
            )) && buffer_bytes(*final(dst)) == buffer_bytes(*old(dst)),
    {
        append(dst, item)
    }
}

} // verus!
