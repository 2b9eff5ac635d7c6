//! The commands of the control connection and how a line is read as one.

use vstd::prelude::*;
use vstd::utf8::encode_utf8;
use crate::error::FtpError;
use crate::text::{chars_of, split, split_text, texts};
use crate::utils::{
    bytes_to_uppercase, first_word, get_first_word_and_rest, rest_after_word, upper_bytes,
};

verus! {

/// How the bytes of a transfer are to be read. The session records it; it
/// does not change what is transferred.
#[allow(non_camel_case_types)]
#[derive(Debug, Clone, Copy, PartialEq, Eq, Structural)]
pub enum DataTransferType {
    ASCII,
    IMAGE,
    UNKNOWN,
}

/// The transfer type that the type code `val` names: `A` or `I`.
pub open spec fn transfer_type_of(val: u8) -> DataTransferType {
    if val == 0x41 {
        DataTransferType::ASCII
    } else if val == 0x49 {
        DataTransferType::IMAGE
    } else {
        DataTransferType::UNKNOWN
    }
}

impl From<u8> for DataTransferType {
    fn from(val: u8) -> (t: Self) {
        if val == 0x41 {
            DataTransferType::ASCII
        } else if val == 0x49 {
            DataTransferType::IMAGE
        } else {
            DataTransferType::UNKNOWN
        }
    }
}

impl vstd::std_specs::convert::FromSpecImpl<u8> for DataTransferType {
    open spec fn obeys_from_spec() -> bool {
        true
    }

    open spec fn from_spec(val: u8) -> Self {
        transfer_type_of(val)
    }
}

/// One command of a client, with what it carries.
#[allow(non_camel_case_types)]
#[derive(Debug)]
pub enum Command {
    AUTH,
    CWD(String),
    CDUP,
    LIST(Option<String>),
    MKD(String),
    NOOP,
    PORT(u16),
    PASS(String),
    PASV,
    PWD,
    QUIT,
    RETR(String),
    RMD(String),
    STOR(String),
    SYST,
    TYPE(DataTransferType),
    UNKNOWN(String),
    USER(String),
}

/// A command, with text in place of strings.
#[allow(non_camel_case_types)]
pub ghost enum CommandView {
    AUTH,
    CWD(Seq<char>),
    CDUP,
    LIST(Option<Seq<char>>),
    MKD(Seq<char>),
    NOOP,
    PORT(u16),
    PASS(Seq<char>),
    PASV,
    PWD,
    QUIT,
    RETR(Seq<char>),
    RMD(Seq<char>),
    STOR(Seq<char>),
    SYST,
    TYPE(DataTransferType),
    UNKNOWN(Seq<char>),
    USER(Seq<char>),
}

impl View for Command {
    type V = CommandView;

    open spec fn view(&self) -> CommandView {
        match self {
            Command::AUTH => CommandView::AUTH,
            Command::CWD(p) => CommandView::CWD(p@),
            Command::CDUP => CommandView::CDUP,
            Command::LIST(a) => CommandView::LIST(
                match a {
                    Some(s) => Some(s@),
                    None => None,
                },
            ),
            Command::MKD(p) => CommandView::MKD(p@),
            Command::NOOP => CommandView::NOOP,
            Command::PORT(n) => CommandView::PORT(*n),
            Command::PASS(s) => CommandView::PASS(s@),
            Command::PASV => CommandView::PASV,
            Command::PWD => CommandView::PWD,
            Command::QUIT => CommandView::QUIT,
            Command::RETR(p) => CommandView::RETR(p@),
            Command::RMD(p) => CommandView::RMD(p@),
            Command::STOR(p) => CommandView::STOR(p@),
            Command::SYST => CommandView::SYST,
            Command::TYPE(t) => CommandView::TYPE(*t),
            Command::UNKNOWN(s) => CommandView::UNKNOWN(s@),
            Command::USER(s) => CommandView::USER(s@),
        }
    }
}

/// Whether `c` is a decimal digit.
pub open spec fn is_digit(c: char) -> bool {
    '0' <= c <= '9'
}

/// The value of the digit `c`; 0 for any other character.
pub open spec fn digit_value(c: char) -> nat {
    if is_digit(c) {
        (c as int - 48) as nat
    } else {
        0
    }
}

/// The number that the digits `s` write in decimal.
pub open spec fn number(s: Seq<char>) -> nat
    decreases s.len(),
{
    if s.len() == 0 {
        0
    } else {
        number(s.drop_last()) * 10 + digit_value(s.last())
    }
}

/// Whether `s` writes a byte: one or more decimal digits, with a value of at
/// most 255.
pub open spec fn is_byte_text(s: Seq<char>) -> bool {
    s.len() > 0 && (forall|i: int| 0 <= i < s.len() ==> is_digit(#[trigger] s[i])) && number(s)
        <= 255
}

/// The number written by a prefix is at most the number written by the
/// whole.
pub proof fn lemma_number_prefix(s: Seq<char>, i: int)
    requires
        0 <= i <= s.len(),
    ensures
        number(s.take(i)) <= number(s),
    decreases s.len(),
{
    if i == s.len() {
        assert(s.take(i) =~= s);
    } else {
        assert(s.drop_last().take(i) =~= s.take(i));
        lemma_number_prefix(s.drop_last(), i);
    }
}

/// The byte that `s` writes in decimal, if it writes one.
pub fn parse_byte(s: &str) -> (r: Option<u8>)
    ensures
        is_byte_text(s@) ==> r == Some(number(s@) as u8),
        !is_byte_text(s@) ==> r is None,
{
    let chars = chars_of(s);
    if chars.len() == 0 {
        return None;
    }
    let mut acc: u16 = 0;
    let mut i: usize = 0;
    assert(chars@.take(0) =~= Seq::<char>::empty());
    while i < chars.len()
        invariant
            i <= chars.len(),
            chars@ == s@,
            acc <= 255,
            acc == number(chars@.take(i as int)),
            forall|j: int| 0 <= j < i ==> is_digit(#[trigger] chars@[j]),
        decreases chars.len() - i,
    {
        let c = chars[i];
        if !('0' <= c && c <= '9') {
            return None;
        }
        let d: u16 = (c as u32 - 48) as u16;
        let next: u16 = acc * 10 + d;
        proof {
            assert(chars@.take(i + 1).drop_last() =~= chars@.take(i as int));
            assert(next == number(chars@.take(i + 1)));
            lemma_number_prefix(chars@, i + 1);
        }
        if next > 255 {
            return None;
        }
        acc = next;
        i += 1;
    }
    assert(chars@.take(i as int) =~= chars@);
    Some(acc as u8)
}

/// The port that the argument of `PORT` names: six bytes in decimal,
/// separated by commas, the last two being the high and the low byte of the
/// port. A port of 1024 or less is refused.
pub open spec fn parse_port(arg: Seq<char>) -> Result<u16, Seq<char>> {
    let fields = split(arg, ',');
    if fields.len() != 6 || exists|i: int| 0 <= i < 6 && !is_byte_text(#[trigger] fields[i]) {
        Err("Invalid address/port"@)
    } else {
        let port = number(fields[4]) * 256 + number(fields[5]);
        if port <= 1024 {
            Err("Port can't be less than 1025"@)
        } else {
            Ok(port as u16)
        }
    }
}

/// Whether the first word `verb` of a line is the command `name`, whatever
/// the case of its ASCII letters.
pub open spec fn verb_is(verb: Seq<char>, name: Seq<char>) -> bool {
    upper_bytes(encode_utf8(verb)) == encode_utf8(name)
}

/// The command that the line `line` holds, or the text that says why it
/// holds none. The first word names the command; what follows its first
/// delimiter is the argument, untouched. A first word that names no command
/// gives `UNKNOWN` with that word as it was written.
pub open spec fn parse(line: Seq<char>) -> Result<CommandView, Seq<char>> {
    let verb = first_word(line);
    let arg = rest_after_word(line);
    if verb_is(verb, "AUTH"@) {
        Ok(CommandView::AUTH)
    } else if verb_is(verb, "CWD"@) {
        Ok(CommandView::CWD(arg))
    } else if verb_is(verb, "CDUP"@) {
        Ok(CommandView::CDUP)
    } else if verb_is(verb, "LIST"@) {
        Ok(
            CommandView::LIST(
                if arg.len() == 0 {
                    None
                } else {
                    Some(arg)
                },
            ),
        )
    } else if verb_is(verb, "PASV"@) {
        Ok(CommandView::PASV)
    } else if verb_is(verb, "MKD"@) {
        Ok(CommandView::MKD(arg))
    } else if verb_is(verb, "PORT"@) {
        match parse_port(arg) {
            Ok(port) => Ok(CommandView::PORT(port)),
            Err(m) => Err(m),
        }
    } else if verb_is(verb, "PWD"@) {
        Ok(CommandView::PWD)
    } else if verb_is(verb, "QUIT"@) {
        Ok(CommandView::QUIT)
    } else if verb_is(verb, "RETR"@) {
        Ok(CommandView::RETR(arg))
    } else if verb_is(verb, "RMD"@) {
        Ok(CommandView::RMD(arg))
    } else if verb_is(verb, "STOR"@) {
        Ok(CommandView::STOR(arg))
    } else if verb_is(verb, "SYST"@) {
        Ok(CommandView::SYST)
    } else if verb_is(verb, "TYPE"@) {
        let code = encode_utf8(arg);
        if code.len() == 0 || transfer_type_of(code[0]) == DataTransferType::UNKNOWN {
            Err("Command not implemented"@)
        } else {
            Ok(CommandView::TYPE(transfer_type_of(code[0])))
        }
    } else if verb_is(verb, "USER"@) {
        Ok(CommandView::USER(arg))
    } else if verb_is(verb, "PASS"@) {
        Ok(CommandView::PASS(arg))
    } else if verb_is(verb, "NOOP"@) {
        Ok(CommandView::NOOP)
    } else {
        Ok(CommandView::UNKNOWN(verb))
    }
}

/// The name of a command: its verb, and `UNKN` for an unknown one.
pub open spec fn command_name(cmd: CommandView) -> Seq<char> {
    match cmd {
        CommandView::AUTH => "AUTH"@,
        CommandView::CWD(_) => "CWD"@,
        CommandView::CDUP => "CDUP"@,
        CommandView::LIST(_) => "LIST"@,
        CommandView::MKD(_) => "MKD"@,
        CommandView::NOOP => "NOOP"@,
        CommandView::PORT(_) => "PORT"@,
        CommandView::PASS(_) => "PASS"@,
        CommandView::PASV => "PASV"@,
        CommandView::PWD => "PWD"@,
        CommandView::QUIT => "QUIT"@,
        CommandView::RETR(_) => "RETR"@,
        CommandView::STOR(_) => "STOR"@,
        CommandView::RMD(_) => "RMD"@,
        CommandView::SYST => "SYST"@,
        CommandView::TYPE(_) => "TYPE"@,
        CommandView::USER(_) => "USER"@,
        CommandView::UNKNOWN(_) => "UNKN"@,
    }
}

/// Whether the bytes `a` are the UTF-8 bytes of `name`.
fn bytes_are(a: &Vec<u8>, name: &str) -> (r: bool)
    ensures
        r == (a@ == encode_utf8(name@)),
{
    let b = name.as_bytes_vec();
    if a.len() != b.len() {
        return false;
    }
    let mut i: usize = 0;
    while i < a.len()
        invariant
            i <= a.len() == b.len(),
            b@ == encode_utf8(name@),
            forall|j: int| 0 <= j < i ==> a@[j] == b@[j],
        decreases a.len() - i,
    {
        if a[i] != b[i] {
            return false;
        }
        i += 1;
    }
    assert(a@ =~= b@);
    true
}

fn port_of(arg: &str) -> (r: Result<u16, FtpError>)
    ensures
        match parse_port(arg@) {
            Ok(port) => r == Ok::<u16, FtpError>(port),
            Err(m) => r matches Err(FtpError::Msg(s)) && s@ == m,
        },
{
    let fields = split_text(arg, ',');
    if fields.len() != 6 {
        return Err(FtpError::Msg("Invalid address/port".to_owned()));
    }
    let mut values: Vec<u8> = Vec::new();
    let mut i: usize = 0;
    while i < 6
        invariant
            i <= 6 == fields.len(),
            values.len() == i,
            texts(fields@) == split(arg@, ','),
            forall|j: int|
                0 <= j < i ==> is_byte_text(#[trigger] split(arg@, ',')[j]) && values@[j] == number(
                    split(arg@, ',')[j],
                ),
        decreases 6 - i,
    {
        assert(texts(fields@)[i as int] == fields@[i as int]@);
        match parse_byte(fields[i].as_str()) {
            Some(b) => {
                values.push(b);
            },
            None => {
                assert(!is_byte_text(split(arg@, ',')[i as int]));
                return Err(FtpError::Msg("Invalid address/port".to_owned()));
            },
        }
        i += 1;
    }
    let port: u32 = values[4] as u32 * 256 + values[5] as u32;
    if port <= 1024 {
        Err(FtpError::Msg("Port can't be less than 1025".to_owned()))
    } else {
        Ok(port as u16)
    }
}

impl Command {
    /// Reads one line of the control connection, without its line ending, as
    /// a command.
    pub fn new(input: &str) -> (r: Result<Self, FtpError>)
        ensures
            match parse(input@) {
                Ok(c) => r is Ok && r->Ok_0@ == c,
                Err(m) => r matches Err(FtpError::Msg(s)) && s@ == m,
            },
    {
        let (command, data) = match get_first_word_and_rest(input) {
            Some(parts) => parts,
            None => { return Err(FtpError::Msg("Empty command".to_owned())); },
        };
        let mut verb = command.as_bytes_vec();
        bytes_to_uppercase(verb.as_mut_slice());
        if bytes_are(&verb, "AUTH") {
            Ok(Command::AUTH)
        } else if bytes_are(&verb, "CWD") {
            Ok(Command::CWD(data.to_owned()))
        } else if bytes_are(&verb, "CDUP") {
            Ok(Command::CDUP)
        } else if bytes_are(&verb, "LIST") {
            if data.unicode_len() == 0 {
                Ok(Command::LIST(None))
            } else {
                Ok(Command::LIST(Some(data.to_owned())))
            }
        } else if bytes_are(&verb, "PASV") {
            Ok(Command::PASV)
        } else if bytes_are(&verb, "MKD") {
            Ok(Command::MKD(data.to_owned()))
        } else if bytes_are(&verb, "PORT") {
            match port_of(data) {
                Ok(port) => Ok(Command::PORT(port)),
                Err(e) => Err(e),
            }
        } else if bytes_are(&verb, "PWD") {
            Ok(Command::PWD)
        } else if bytes_are(&verb, "QUIT") {
            Ok(Command::QUIT)
        } else if bytes_are(&verb, "RETR") {
            Ok(Command::RETR(data.to_owned()))
        } else if bytes_are(&verb, "RMD") {
            Ok(Command::RMD(data.to_owned()))
        } else if bytes_are(&verb, "STOR") {
            Ok(Command::STOR(data.to_owned()))
        } else if bytes_are(&verb, "SYST") {
            Ok(Command::SYST)
        } else if bytes_are(&verb, "TYPE") {
            let code = data.as_bytes_vec();
            if code.len() == 0 {
                return Err(FtpError::Msg("Command not implemented".to_owned()));
            }
            match DataTransferType::from(code[0]) {
                DataTransferType::UNKNOWN => Err(
                    FtpError::Msg("Command not implemented".to_owned()),
                ),
                typ => Ok(Command::TYPE(typ)),
            }
        } else if bytes_are(&verb, "USER") {
            Ok(Command::USER(data.to_owned()))
        } else if bytes_are(&verb, "PASS") {
            Ok(Command::PASS(data.to_owned()))
        } else if bytes_are(&verb, "NOOP") {
            Ok(Command::NOOP)
        } else {
            Ok(Command::UNKNOWN(command.to_owned()))
        }
    }

    /// The name of the command.
    pub fn name(&self) -> (s: &'static str)
        ensures
            s@ == command_name(self@),
    {
        match self {
            Command::AUTH => "AUTH",
            Command::CWD(_) => "CWD",
            Command::CDUP => "CDUP",
            Command::LIST(_) => "LIST",
            Command::MKD(_) => "MKD",
            Command::NOOP => "NOOP",
            Command::PORT(_) => "PORT",
            Command::PASS(_) => "PASS",
            Command::PASV => "PASV",
            Command::PWD => "PWD",
            Command::QUIT => "QUIT",
            Command::RETR(_) => "RETR",
            Command::STOR(_) => "STOR",
            Command::RMD(_) => "RMD",
            Command::SYST => "SYST",
            Command::TYPE(_) => "TYPE",
            Command::USER(_) => "USER",
            Command::UNKNOWN(_) => "UNKN",
        }
    }
}

impl AsRef<str> for Command {
    fn as_ref(&self) -> (s: &str)
        ensures
            s@ == command_name(self@),
    {
        self.name()
    }
}

} // verus!
