//! Helpers shared by the command parser, the session and the codecs.

use vstd::prelude::*;
use crate::path::{
    file_name_of, has_parent_dir, is_absolute, parent_dir, segments, segments_of, starts_at_root,
};
use crate::text::{chars_of, push_char, push_text, same_text, texts};

verus! {

/// The name of the protected file: directly under the served root, only an
/// administrator may list, read or overwrite it.
pub const CONFIG_FILE: &'static str = "config.json";

/// The byte `b`, raised to upper case where it is an ASCII lower-case letter.
pub open spec fn upper_byte(b: u8) -> u8 {
    if 0x61 <= b <= 0x7a {
        (b - 32) as u8
    } else {
        b
    }
}

/// The bytes `s`, each raised to upper case.
pub open spec fn upper_bytes(s: Seq<u8>) -> Seq<u8> {
    Seq::new(s.len(), |i: int| upper_byte(s[i]))
}

/// Raises the ASCII lower-case letters among `data` to upper case, in place.
pub fn bytes_to_uppercase(data: &mut [u8])
    ensures
        final(data)@ == upper_bytes(old(data)@),
{
    let mut i: usize = 0;
    while i < data.len()
        invariant
            i <= data.len(),
            data@.len() == old(data)@.len(),
            forall|j: int| 0 <= j < i ==> data@[j] == upper_byte(old(data)@[j]),
            forall|j: int| i <= j < data@.len() ==> data@[j] == old(data)@[j],
        decreases data.len() - i,
    {
        let b = data[i];
        if b >= 0x61 && b <= 0x7a {
            data[i] = b - 32;
        }
        i += 1;
    }
    assert(data@ =~= upper_bytes(old(data)@));
}

/// Whether `c` ends the first word of a command line: a space, a tab, a line
/// feed, a form feed or a carriage return.
pub open spec fn is_delimiter(c: char) -> bool {
    c == ' ' || c == '\t' || c == '\n' || c == '\x0c' || c == '\r'
}

/// The number of characters before the first delimiter of `s`.
pub open spec fn word_len(s: Seq<char>) -> nat
    decreases s.len(),
{
    if s.len() == 0 || is_delimiter(s[0]) {
        0
    } else {
        1 + word_len(s.drop_first())
    }
}

/// The first word of `s`: what stands before its first delimiter.
pub open spec fn first_word(s: Seq<char>) -> Seq<char> {
    s.take(word_len(s) as int)
}

/// What follows the first delimiter of `s`, untouched; empty where `s` has
/// no delimiter.
pub open spec fn rest_after_word(s: Seq<char>) -> Seq<char> {
    if word_len(s) < s.len() {
        s.skip(word_len(s) as int + 1)
    } else {
        Seq::<char>::empty()
    }
}

/// The first word ends at `i` exactly when no delimiter stands before `i`
/// and `i` is the end of the text or holds a delimiter.
pub proof fn lemma_word_len(s: Seq<char>, i: int)
    requires
        0 <= i <= s.len(),
        forall|j: int| 0 <= j < i ==> !is_delimiter(#[trigger] s[j]),
        i == s.len() || is_delimiter(s[i]),
    ensures
        word_len(s) == i,
    decreases i,
{
    if i > 0 {
        let t = s.drop_first();
        assert(!is_delimiter(s[0]));
        assert forall|j: int| 0 <= j < i - 1 implies !is_delimiter(#[trigger] t[j]) by {
            assert(t[j] == s[j + 1]);
        }
        lemma_word_len(t, i - 1);
    }
}

/// Splits a command line into its first word and the rest.
pub fn get_first_word_and_rest(input: &str) -> (r: Option<(&str, &str)>)
    ensures
        r is Some,
        r->Some_0.0@ == first_word(input@),
        r->Some_0.1@ == rest_after_word(input@),
{
    let chars = chars_of(input);
    let n = chars.len();
    let mut i: usize = 0;
    while i < n && !(chars[i] == ' ' || chars[i] == '\t' || chars[i] == '\n' || chars[i] == '\x0c'
        || chars[i] == '\r')
        invariant
            i <= n == chars.len(),
            forall|j: int| 0 <= j < i ==> !is_delimiter(#[trigger] chars@[j]),
        decreases n - i,
    {
        i += 1;
    }
    proof {
        lemma_word_len(input@, i as int);
    }
    let word = input.substring_char(0, i);
    if i < n {
        Some((word, input.substring_char(i + 1, n)))
    } else {
        Some((word, input.substring_char(n, n)))
    }
}

/// `path` with a leading separator where it had none.
pub open spec fn slash_prefixed(path: Seq<char>) -> Seq<char> {
    if is_absolute(path) {
        path
    } else {
        seq!['/'] + path
    }
}

/// Makes `path` absolute: puts a separator in front unless one is there.
pub fn prefix_slash(path: &mut String)
    ensures
        final(path)@ == slash_prefixed(old(path)@),
{
    if !starts_at_root(path.as_str()) {
        let mut out = String::new();
        push_char(&mut out, '/');
        push_text(&mut out, path.as_str());
        *path = out;
    }
}

/// Whether one of the names of `path` is `..`.
pub fn invalid_path(path: &str) -> (r: bool)
    ensures
        r == has_parent_dir(path@),
{
    let ns = segments_of(path);
    proof {
        reveal_strlit("..");
    }
    assert(".."@ =~= parent_dir());
    let mut i: usize = 0;
    while i < ns.len()
        invariant
            i <= ns.len(),
            texts(ns@) == segments(path@),
            ".."@ == parent_dir(),
            forall|j: int| 0 <= j < i ==> segments(path@)[j] != parent_dir(),
        decreases ns.len() - i,
    {
        if same_text(ns[i].as_str(), "..") {
            assert(segments(path@)[i as int] == parent_dir());
            return true;
        }
        i += 1;
    }
    false
}

/// The last name of the path; `None` where it has no name or ends in `..`.
pub fn get_filename(path: &str) -> (r: Option<String>)
    ensures
        match file_name_of(path@) {
            Some(t) => r is Some && r->Some_0@ == t,
            None => r is None,
        },
{
    let ns = segments_of(path);
    if ns.len() == 0 {
        return None;
    }
    proof {
        reveal_strlit("..");
    }
    assert(".."@ =~= parent_dir());
    let last = &ns[ns.len() - 1];
    assert(last@ == segments(path@).last());
    if same_text(last.as_str(), "..") {
        None
    } else {
        Some(last.clone())
    }
}

/// One of the nine permission marks: `mark` where `mode` has the bit `bit`,
/// else `-`.
pub open spec fn permission_mark(mode: u32, bit: u32, mark: char) -> char {
    if mode & bit != 0 {
        mark
    } else {
        '-'
    }
}

/// The nine permission marks of `mode`: read, write and execute for the
/// owner, the group and the others.
pub open spec fn permission_text(mode: u32) -> Seq<char> {
    seq![
        permission_mark(mode, 0x100, 'r'),
        permission_mark(mode, 0x80, 'w'),
        permission_mark(mode, 0x40, 'x'),
        permission_mark(mode, 0x20, 'r'),
        permission_mark(mode, 0x10, 'w'),
        permission_mark(mode, 0x8, 'x'),
        permission_mark(mode, 0x4, 'r'),
        permission_mark(mode, 0x2, 'w'),
        permission_mark(mode, 0x1, 'x'),
    ]
}

fn mark(mode: u32, bit: u32, letter: char) -> (c: char)
    ensures
        c == permission_mark(mode, bit, letter),
{
    if mode & bit != 0 {
        letter
    } else {
        '-'
    }
}

/// The nine permission marks of the mode bits `mode`.
pub fn get_permissions(mode: u32) -> (s: String)
    ensures
        s@ == permission_text(mode),
{
    let mut s = String::new();
    push_char(&mut s, mark(mode, 0x100, 'r'));
    push_char(&mut s, mark(mode, 0x80, 'w'));
    push_char(&mut s, mark(mode, 0x40, 'x'));
    push_char(&mut s, mark(mode, 0x20, 'r'));
    push_char(&mut s, mark(mode, 0x10, 'w'));
    push_char(&mut s, mark(mode, 0x8, 'x'));
    push_char(&mut s, mark(mode, 0x4, 'r'));
    push_char(&mut s, mark(mode, 0x2, 'w'));
    push_char(&mut s, mark(mode, 0x1, 'x'));
    assert(s@ =~= permission_text(mode));
    s
}

} // verus!
