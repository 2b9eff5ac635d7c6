//! Directory listings: one line of text for each entry.

use vstd::prelude::*;
use vstd::utf8::encode_utf8;
use crate::path::{names_below, segments_of, within};
use crate::text::{
    decimal, push_char, push_decimal, push_signed_decimal, push_text, push_two_digits, same_text,
    signed_decimal, split, split_text, texts, two_digits,
};
use crate::utils::{get_permissions, permission_text, CONFIG_FILE};

verus! {

/// What the file store reports of one entry.
#[derive(Debug)]
pub struct FileInfo {
    /// The path of the entry in the store.
    pub path: String,
    pub is_dir: bool,
    /// Whether the entry cannot be written.
    pub readonly: bool,
    /// The permission bits.
    pub mode: u32,
    /// The size in bytes.
    pub size: u64,
    /// When the entry was last changed, in seconds since the Unix epoch.
    pub modified: i64,
}

/// An entry, with text in place of strings.
pub ghost struct FileInfoView {
    pub path: Seq<char>,
    pub is_dir: bool,
    pub readonly: bool,
    pub mode: u32,
    pub size: u64,
    pub modified: i64,
}

impl View for FileInfo {
    type V = FileInfoView;

    open spec fn view(&self) -> FileInfoView {
        FileInfoView {
            path: self.path@,
            is_dir: self.is_dir,
            readonly: self.readonly,
            mode: self.mode,
            size: self.size,
            modified: self.modified,
        }
    }
}

/// The views of the entries `v`.
pub open spec fn infos(v: Seq<FileInfo>) -> Seq<FileInfoView> {
    Seq::new(v.len(), |i: int| v[i]@)
}

/// A moment as the calendar and the clock show it in UTC.
#[derive(Debug, Clone, Copy, PartialEq, Eq, Structural)]
pub struct CivilTime {
    pub year: i32,
    /// 1 for January to 12 for December.
    pub month: u8,
    pub day: u8,
    pub hour: u8,
    pub minute: u8,
}

/// The calendar date and clock time, in UTC, of the moment `timestamp`
/// seconds after the Unix epoch; `None` where the calendar in use does not
/// reach that far.
pub uninterp spec fn utc_civil(timestamp: i64) -> Option<CivilTime>;

/// The calendar date and clock time, in UTC, of a Unix timestamp.
///
/// Trusted: wraps `time::OffsetDateTime::from_unix_timestamp`, which fails
/// for a timestamp outside the dates it supports and else gives the moment
/// in UTC, and reads its year, month, day, hour and minute, the month as its
/// number. The contract claims only that the outcome depends on the
/// timestamp alone.
#[verifier::external_body]
pub(crate) fn get_file_info(timestamp: i64) -> (r: Option<CivilTime>)
    ensures
        r == utc_civil(timestamp),
{
    match time::OffsetDateTime::from_unix_timestamp(timestamp) {
        Ok(t) => Some(
            CivilTime {
                year: t.year(),
                month: u8::from(t.month()),
                day: t.day(),
                hour: t.hour(),
                minute: t.minute(),
            },
        ),
        Err(_) => None,
    }
}

/// The English abbreviation of the month numbered `month`, from 1 for
/// January; any number past 11 gives December's.
pub open spec fn month_abbreviation(month: u8) -> Seq<char> {
    if month == 1 {
        "Jan"@
    } else if month == 2 {
        "Feb"@
    } else if month == 3 {
        "Mar"@
    } else if month == 4 {
        "Apr"@
    } else if month == 5 {
        "May"@
    } else if month == 6 {
        "Jun"@
    } else if month == 7 {
        "Jul"@
    } else if month == 8 {
        "Aug"@
    } else if month == 9 {
        "Sep"@
    } else if month == 10 {
        "Oct"@
    } else if month == 11 {
        "Nov"@
    } else {
        "Dec"@
    }
}

fn month_name(month: u8) -> (s: &'static str)
    ensures
        s@ == month_abbreviation(month),
{
    if month == 1 {
        "Jan"
    } else if month == 2 {
        "Feb"
    } else if month == 3 {
        "Mar"
    } else if month == 4 {
        "Apr"
    } else if month == 5 {
        "May"
    } else if month == 6 {
        "Jun"
    } else if month == 7 {
        "Jul"
    } else if month == 8 {
        "Aug"
    } else if month == 9 {
        "Sep"
    } else if month == 10 {
        "Oct"
    } else if month == 11 {
        "Nov"
    } else {
        "Dec"
    }
}

/// The permission marks shown for an entry: read-only marks where the store
/// reports it read-only, else those of its mode bits.
pub open spec fn rights(info: FileInfoView) -> Seq<char> {
    if info.readonly {
        "r--r--r--"@
    } else {
        permission_text(info.mode)
    }
}

/// The clock time of `date` where it falls in the year `this_year`, else
/// its year after a space.
pub open spec fn time_or_year(date: CivilTime, this_year: Option<i32>) -> Seq<char> {
    if this_year == Some(date.year) {
        two_digits(date.hour as nat) + seq![':'] + two_digits(date.minute as nat)
    } else {
        seq![' '] + signed_decimal(date.year as int)
    }
}

/// The name shown for an entry: what follows the last separator of its
/// path.
pub open spec fn shown_name(path: Seq<char>) -> Seq<char> {
    split(path, '/').last()
}

/// The line of a listing for one entry changed at `date`: the kind and the
/// permission marks, the link count 1, owner and group, the size, the month,
/// the day, the time or the year, and the name, which ends in `/` for a
/// directory. The line ends in CR LF.
pub open spec fn listing_line(info: FileInfoView, date: CivilTime, this_year: Option<i32>) -> Seq<
    char,
> {
    seq![if info.is_dir { 'd' } else { '-' }] + rights(info) + " 1 ftp-rustified anonymous "@
        + decimal(info.size as nat) + seq![' '] + month_abbreviation(date.month) + seq![' ']
        + two_digits(date.day as nat) + seq![' '] + time_or_year(date, this_year) + seq![' ']
        + shown_name(info.path) + (if info.is_dir {
        seq!['/']
    } else {
        Seq::<char>::empty()
    }) + seq!['\r', '\n']
}

/// The line of a listing for one entry, changed at `date`, as seen in the
/// year `this_year`.
pub fn format_file_info(info: &FileInfo, date: CivilTime, this_year: Option<i32>) -> (line: String)
    ensures
        line@ == listing_line(info@, date, this_year),
{
    let mut s = String::new();
    push_char(&mut s, if info.is_dir { 'd' } else { '-' });
    if info.readonly {
        push_text(&mut s, "r--r--r--");
    } else {
        let rights = get_permissions(info.mode);
        push_text(&mut s, rights.as_str());
    }
    push_text(&mut s, " 1 ftp-rustified anonymous ");
    push_decimal(&mut s, info.size);
    push_char(&mut s, ' ');
    push_text(&mut s, month_name(date.month));
    push_char(&mut s, ' ');
    push_two_digits(&mut s, date.day);
    push_char(&mut s, ' ');
    let ghost before = s@;
    let same_year = match this_year {
        Some(y) => y == date.year,
        None => false,
    };
    if same_year {
        push_two_digits(&mut s, date.hour);
        push_char(&mut s, ':');
        push_two_digits(&mut s, date.minute);
    } else {
        push_char(&mut s, ' ');
        push_signed_decimal(&mut s, date.year);
    }
    assert(s@ =~= before + time_or_year(date, this_year));
    push_char(&mut s, ' ');
    let pieces = split_text(info.path.as_str(), '/');
    proof {
        crate::text::lemma_split_nonempty(info.path@, '/');
    }
    assert(texts(pieces@).last() == pieces@[pieces.len() - 1]@);
    push_text(&mut s, pieces[pieces.len() - 1].as_str());
    if info.is_dir {
        push_char(&mut s, '/');
    }
    push_char(&mut s, '\r');
    push_char(&mut s, '\n');
    assert(s@ =~= listing_line(info@, date, this_year));
    s
}

/// The bytes that one entry adds to a listing: its line, or nothing where
/// the moment of its last change has no calendar date.
pub open spec fn entry_bytes(
    info: FileInfoView,
    date: Option<CivilTime>,
    now: Option<CivilTime>,
) -> Seq<u8> {
    match date {
        Some(w) => encode_utf8(
            listing_line(
                info,
                w,
                match now {
                    Some(n) => Some(n.year),
                    None => None,
                },
            ),
        ),
        None => Seq::<u8>::empty(),
    }
}

/// Appends the line of one entry to a listing, as seen at the moment `now`,
/// in seconds since the Unix epoch. An entry whose last change has no
/// calendar date adds nothing.
pub fn add_file_info(info: &FileInfo, now: i64, out: &mut Vec<u8>)
    ensures
        final(out)@ == old(out)@ + entry_bytes(info@, utc_civil(info.modified), utc_civil(now)),
{
    let date = match get_file_info(info.modified) {
        Some(w) => w,
        None => {
            assert(out@ + Seq::<u8>::empty() =~= out@);
            return ;
        },
    };
    let this_year = match get_file_info(now) {
        Some(n) => Some(n.year),
        None => None,
    };
    let line = format_file_info(info, date, this_year);
    let mut bytes = line.as_str().as_bytes_vec();
    out.append(&mut bytes);
}

/// Whether `p` is the protected file of the tree below `root`: the file
/// named by `CONFIG_FILE` directly under `root`.
pub open spec fn is_protected(root: Seq<char>, p: Seq<char>) -> bool {
    within(p, root) && names_below(root, p) == seq![CONFIG_FILE@]
}

/// Whether `p` is the protected file of the tree below `root`.
pub fn protected_path(root: &str, p: &str) -> (r: bool)
    ensures
        r == is_protected(root@, p@),
{
    if !crate::path::is_within(p, root) {
        return false;
    }
    let pn = segments_of(p);
    let rn = segments_of(root);
    if pn.len() == 0 || pn.len() - 1 != rn.len() {
        assert(names_below(root@, p@).len() != 1);
        return false;
    }
    let r = same_text(pn[pn.len() - 1].as_str(), CONFIG_FILE);
    assert(names_below(root@, p@) =~= seq![pn@[pn.len() - 1]@]);
    assert(seq![pn@[pn.len() - 1]@][0] == pn@[pn.len() - 1]@);
    r
}

/// The entries that a session may see: all of them for an administrator,
/// all but the protected file for anyone else.
pub open spec fn visible(entries: Seq<FileInfoView>, root: Seq<char>, is_admin: bool) -> Seq<
    FileInfoView,
>
    decreases entries.len(),
{
    if entries.len() == 0 {
        Seq::<FileInfoView>::empty()
    } else {
        let init = visible(entries.drop_last(), root, is_admin);
        if is_admin || !is_protected(root, entries.last().path) {
            init.push(entries.last())
        } else {
            init
        }
    }
}

/// The bytes of a listing of `entries`, in their order, as seen at `now`.
pub open spec fn listing_bytes(entries: Seq<FileInfoView>, now: i64) -> Seq<u8>
    decreases entries.len(),
{
    if entries.len() == 0 {
        Seq::<u8>::empty()
    } else {
        listing_bytes(entries.drop_last(), now) + entry_bytes(
            entries.last(),
            utc_civil(entries.last().modified),
            utc_civil(now),
        )
    }
}

/// The listing of the entries of a directory of the tree below `root`, for
/// an administrator or for anyone else, as seen at the moment `now`.
pub fn list_dir(entries: &Vec<FileInfo>, root: &str, is_admin: bool, now: i64) -> (out: Vec<u8>)
    ensures
        out@ == listing_bytes(visible(infos(entries@), root@, is_admin), now),
{
    let mut out: Vec<u8> = Vec::new();
    let mut i: usize = 0;
    assert(infos(entries@).take(0) =~= Seq::<FileInfoView>::empty());
    while i < entries.len()
        invariant
            i <= entries.len(),
            out@ == listing_bytes(visible(infos(entries@).take(i as int), root@, is_admin), now),
        decreases entries.len() - i,
    {
        let ghost seen = infos(entries@).take(i + 1);
        assert(seen.drop_last() =~= infos(entries@).take(i as int));
        assert(seen.last() == entries@[i as int]@);
        if is_admin || !protected_path(root, entries[i].path.as_str()) {
            let ghost shown = visible(seen, root@, is_admin);
            assert(shown.drop_last() =~= visible(seen.drop_last(), root@, is_admin));
            add_file_info(&entries[i], now, &mut out);
        }
        i += 1;
    }
    assert(infos(entries@).take(i as int) =~= infos(entries@));
    out
}

/// Someone who is no administrator never sees the protected file.
pub proof fn lemma_protected_hidden(entries: Seq<FileInfoView>, root: Seq<char>, i: int)
    requires
        0 <= i < visible(entries, root, false).len(),
    ensures
        !is_protected(root, visible(entries, root, false)[i].path),
    decreases entries.len(),
{
    if entries.len() > 0 {
        let init = visible(entries.drop_last(), root, false);
        if i < init.len() {
            lemma_protected_hidden(entries.drop_last(), root, i);
        }
    }
}

/// An administrator sees every entry.
pub proof fn lemma_admin_sees_all(entries: Seq<FileInfoView>, root: Seq<char>)
    ensures
        visible(entries, root, true) == entries,
    decreases entries.len(),
{
    if entries.len() > 0 {
        lemma_admin_sees_all(entries.drop_last(), root);
        assert(entries.drop_last().push(entries.last()) =~= entries);
    } else {
        assert(entries =~= Seq::<FileInfoView>::empty());
    }
}

/// Every entry that is not the protected file is seen by everyone, in the
/// order of the entries.
pub proof fn lemma_unprotected_visible(entries: Seq<FileInfoView>, root: Seq<char>)
    requires
        forall|i: int| 0 <= i < entries.len() ==> !is_protected(root, #[trigger] entries[i].path),
    ensures
        visible(entries, root, false) == entries,
    decreases entries.len(),
{
    if entries.len() > 0 {
        let init = entries.drop_last();
        assert forall|i: int| 0 <= i < init.len() implies !is_protected(
            root,
            #[trigger] init[i].path,
        ) by {
            assert(init[i] == entries[i]);
        }
        lemma_unprotected_visible(init, root);
        assert(entries.last() == entries[entries.len() - 1]);
        assert(init.push(entries.last()) =~= entries);
    } else {
        assert(entries =~= Seq::<FileInfoView>::empty());
    }
}

} // verus!
