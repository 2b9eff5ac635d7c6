//! Replies on the control connection.

use vstd::prelude::*;
use vstd::utf8::encode_utf8;
use crate::ftp_response_code::{be_bytes, ResponseCode};
use crate::text::{decimal, push_char, push_decimal, push_text};

verus! {

/// One reply: a code and a human-readable message.
#[derive(Debug)]
pub struct Response {
    pub code: ResponseCode,
    pub message: String,
}

/// A reply, with text in place of the string.
pub ghost struct ResponseView {
    pub code: ResponseCode,
    pub message: Seq<char>,
}

impl View for Response {
    type V = ResponseView;

    open spec fn view(&self) -> ResponseView {
        ResponseView { code: self.code, message: self.message@ }
    }
}

impl Response {
    /// The reply as text, without a line ending: the code, a space and the
    /// message.
    pub open spec fn text(self) -> Seq<char> {
        decimal(self.code.value() as nat) + seq![' '] + self.message@
    }

    /// The reply as one line of the control connection: the code, then a
    /// space and the message unless the message is empty, then CR LF.
    pub open spec fn line(self) -> Seq<char> {
        if self.message@.len() == 0 {
            decimal(self.code.value() as nat) + seq!['\r', '\n']
        } else {
            self.text() + seq!['\r', '\n']
        }
    }

    /// A reply with this code and message.
    pub fn new(code: ResponseCode, message: &str) -> (r: Self)
        ensures
            r.code == code,
            r.message@ == message@,
    {
        Response { code, message: message.to_owned() }
    }

    /// The code in network byte order, followed by the bytes of the message.
    pub fn to_bytes(self) -> (bytes: Vec<u8>)
        ensures
            bytes@ == be_bytes(self.code.value()) + encode_utf8(self.message@),
    {
        let mut bytes = self.code.to_bytes();
        let mut message = self.message.as_str().as_bytes_vec();
        bytes.append(&mut message);
        bytes
    }

    /// The code, a space and the message.
    pub fn to_string(self) -> (s: String)
        ensures
            s@ == self.text(),
    {
        let mut s = String::new();
        push_decimal(&mut s, self.code.number() as u64);
        push_char(&mut s, ' ');
        push_text(&mut s, self.message.as_str());
        s
    }

    /// The bytes to write on the control connection for this reply.
    pub fn encode(&self) -> (bytes: Vec<u8>)
        ensures
            bytes@ == encode_utf8(self.line()),
    {
        let mut s = String::new();
        push_decimal(&mut s, self.code.number() as u64);
        if self.message.as_str().unicode_len() > 0 {
            push_char(&mut s, ' ');
            push_text(&mut s, self.message.as_str());
        }
        push_char(&mut s, '\r');
        push_char(&mut s, '\n');
        assert(s@ =~= self.line());
        s.as_str().as_bytes_vec()
    }
}

} // verus!
