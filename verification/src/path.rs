//! Paths as text: names separated by `/`.
//!
//! A path is read as the sequence of its names. Empty pieces (from doubled or
//! trailing separators) and `.` do not count as names; `..` does, and is
//! resolved only by the file store.

use vstd::prelude::*;
use crate::error::FtpError;
use crate::utils::invalid_path;
use crate::text::{
    lemma_split_concat, lemma_split_pieces, lemma_split_single, push_char, push_text, same_text,
    split, split_text, texts,
};

verus! {

/// Whether a piece of a path is a name: it is neither empty nor `.`.
pub open spec fn is_name(piece: Seq<char>) -> bool {
    piece.len() > 0 && piece != seq!['.']
}

/// The pieces that are names, in order.
pub open spec fn names(pieces: Seq<Seq<char>>) -> Seq<Seq<char>>
    decreases pieces.len(),
{
    if pieces.len() == 0 {
        Seq::<Seq<char>>::empty()
    } else {
        let init = names(pieces.drop_last());
        if is_name(pieces.last()) {
            init.push(pieces.last())
        } else {
            init
        }
    }
}

/// The names of the path `p`, in order.
pub open spec fn segments(p: Seq<char>) -> Seq<Seq<char>> {
    names(split(p, '/'))
}

/// The names joined by `/`, without a leading or trailing separator.
pub open spec fn join(ns: Seq<Seq<char>>) -> Seq<char>
    decreases ns.len(),
{
    if ns.len() == 0 {
        Seq::<char>::empty()
    } else if ns.len() == 1 {
        ns[0]
    } else {
        join(ns.drop_last()) + seq!['/'] + ns.last()
    }
}

/// Whether the path starts at the root.
pub open spec fn is_absolute(p: Seq<char>) -> bool {
    p.len() > 0 && p[0] == '/'
}

/// The absolute path with the given names.
pub open spec fn rooted(ns: Seq<Seq<char>>) -> Seq<char> {
    seq!['/'] + join(ns)
}

/// The parent-directory name.
pub open spec fn parent_dir() -> Seq<char> {
    seq!['.', '.']
}

/// Whether `name` can stand as one name of a path.
pub open spec fn plain_name(name: Seq<char>) -> bool {
    is_name(name) && !name.contains('/')
}

/// `p` appended to `base`: `p` itself where it is absolute or `base` is
/// empty, else `base`, a separator unless `base` ends in one, and `p`.
pub open spec fn join_paths(base: Seq<char>, p: Seq<char>) -> Seq<char> {
    if is_absolute(p) || base.len() == 0 {
        p
    } else if base.last() == '/' {
        base + p
    } else {
        base + seq!['/'] + p
    }
}

/// The path in the file store that the virtual path `v` stands for, before
/// the store resolves it: the names of `v` appended to `root`. A virtual path
/// is always read from the virtual root, whether or not it is absolute.
pub open spec fn under_root(root: Seq<char>, v: Seq<char>) -> Seq<char> {
    join_paths(root, join(segments(v)))
}

/// Whether `p` lies in the tree below `root`: the names of `root` are the
/// first names of `p`, and both are absolute or both relative.
pub open spec fn within(p: Seq<char>, root: Seq<char>) -> bool {
    is_absolute(p) == is_absolute(root) && segments(root).is_prefix_of(segments(p))
}

/// The names of `p` that follow those of `root`.
pub open spec fn names_below(root: Seq<char>, p: Seq<char>) -> Seq<Seq<char>> {
    segments(p).skip(segments(root).len() as int)
}

/// Whether one of the names of `p` is `..`.
pub open spec fn has_parent_dir(p: Seq<char>) -> bool {
    segments(p).contains(parent_dir())
}

/// The path without its last name; `None` where it has no name. An absolute
/// path keeps its leading separator.
pub open spec fn parent_of(p: Seq<char>) -> Option<Seq<char>> {
    if segments(p).len() == 0 {
        None
    } else if is_absolute(p) {
        Some(rooted(segments(p).drop_last()))
    } else {
        Some(join(segments(p).drop_last()))
    }
}

/// The last name of the path; `None` where it has no name or ends in `..`.
pub open spec fn file_name_of(p: Seq<char>) -> Option<Seq<char>> {
    if segments(p).len() == 0 || segments(p).last() == parent_dir() {
        None
    } else {
        Some(segments(p).last())
    }
}

/// The names among two runs of pieces are those of the first followed by
/// those of the second.
pub proof fn lemma_names_concat(a: Seq<Seq<char>>, b: Seq<Seq<char>>)
    ensures
        names(a + b) == names(a) + names(b),
    decreases b.len(),
{
    if b.len() == 0 {
        assert(a + b =~= a);
        assert(names(a) + names(b) =~= names(a));
    } else {
        assert((a + b).drop_last() =~= a + b.drop_last());
        lemma_names_concat(a, b.drop_last());
        assert((a + b).last() == b.last());
        if is_name(b.last()) {
            assert((names(a) + names(b.drop_last())).push(b.last()) =~= names(a) + names(b));
        }
    }
}

/// The names of `a`, a separator, `b` are those of `a` followed by those of
/// `b`.
pub proof fn lemma_segments_concat(a: Seq<char>, b: Seq<char>)
    ensures
        segments(a + seq!['/'] + b) == segments(a) + segments(b),
{
    lemma_split_concat(a, b, '/');
    lemma_names_concat(split(a, '/'), split(b, '/'));
}

/// Every name of a path is a plain name.
pub proof fn lemma_segments_plain(p: Seq<char>)
    ensures
        forall|i: int| 0 <= i < segments(p).len() ==> plain_name(#[trigger] segments(p)[i]),
{
    lemma_split_pieces(p, '/');
    lemma_names_subset(split(p, '/'));
}

proof fn lemma_names_subset(pieces: Seq<Seq<char>>)
    requires
        forall|i: int| 0 <= i < pieces.len() ==> !(#[trigger] pieces[i]).contains('/'),
    ensures
        forall|i: int| 0 <= i < names(pieces).len() ==> plain_name(#[trigger] names(pieces)[i]),
    decreases pieces.len(),
{
    if pieces.len() > 0 {
        let init = pieces.drop_last();
        assert forall|i: int| 0 <= i < init.len() implies !(#[trigger] init[i]).contains('/') by {
            assert(init[i] == pieces[i]);
        }
        lemma_names_subset(init);
        assert forall|i: int| 0 <= i < names(pieces).len() implies plain_name(
            #[trigger] names(pieces)[i],
        ) by {
            if i < names(init).len() {
                assert(names(pieces)[i] == names(init)[i]);
            } else {
                assert(names(pieces)[i] == pieces.last());
                assert(pieces.last() == pieces[pieces.len() - 1]);
            }
        }
    }
}

/// The names of a single plain name are that name alone; other pieces have
/// no names.
pub proof fn lemma_segments_single(name: Seq<char>)
    requires
        !name.contains('/'),
    ensures
        segments(name) == if is_name(name) {
            seq![name]
        } else {
            Seq::<Seq<char>>::empty()
        },
{
    lemma_split_single(name, '/');
    let pieces = seq![name];
    assert(pieces.drop_last() =~= Seq::<Seq<char>>::empty());
    assert(names(pieces.drop_last()) =~= Seq::<Seq<char>>::empty());
    if is_name(name) {
        assert(names(pieces) =~= seq![name]);
    }
}

/// Joining plain names and reading the names back gives the same names.
pub proof fn lemma_segments_join(ns: Seq<Seq<char>>)
    requires
        forall|i: int| 0 <= i < ns.len() ==> plain_name(#[trigger] ns[i]),
    ensures
        segments(join(ns)) == ns,
    decreases ns.len(),
{
    if ns.len() == 0 {
        lemma_segments_single(Seq::<char>::empty());
        assert(ns =~= Seq::<Seq<char>>::empty());
    } else if ns.len() == 1 {
        lemma_segments_single(ns[0]);
        assert(ns =~= seq![ns[0]]);
    } else {
        lemma_segments_join(ns.drop_last());
        lemma_segments_concat(join(ns.drop_last()), ns.last());
        lemma_segments_single(ns.last());
        assert(ns.drop_last() + seq![ns.last()] =~= ns);
    }
}

/// The names of an absolute path built from plain names are those names.
pub proof fn lemma_segments_rooted(ns: Seq<Seq<char>>)
    requires
        forall|i: int| 0 <= i < ns.len() ==> plain_name(#[trigger] ns[i]),
    ensures
        segments(rooted(ns)) == ns,
        is_absolute(rooted(ns)),
{
    lemma_segments_join(ns);
    lemma_segments_concat(Seq::<char>::empty(), join(ns));
    lemma_segments_single(Seq::<char>::empty());
    assert(Seq::<char>::empty() + seq!['/'] + join(ns) =~= rooted(ns));
    assert(Seq::<Seq<char>>::empty() + ns =~= ns);
}

/// The names of the path `p`, in order.
pub fn segments_of(p: &str) -> (ns: Vec<String>)
    ensures
        texts(ns@) == segments(p@),
{
    let pieces = split_text(p, '/');
    let mut out: Vec<String> = Vec::new();
    let mut j: usize = 0;
    assert(texts(out@) =~= names(texts(pieces@).take(0)));
    while j < pieces.len()
        invariant
            j <= pieces.len(),
            texts(pieces@) == split(p@, '/'),
            texts(out@) == names(texts(pieces@).take(j as int)),
        decreases pieces.len() - j,
    {
        let ghost before = texts(out@);
        let ghost seen = texts(pieces@).take(j + 1);
        assert(seen.drop_last() =~= texts(pieces@).take(j as int));
        assert(seen.last() == pieces@[j as int]@);
        proof {
            reveal_strlit(".");
        }
        assert("."@ =~= seq!['.']);
        if pieces[j].as_str().unicode_len() > 0 && !same_text(pieces[j].as_str(), ".") {
            out.push(pieces[j].clone());
            assert(texts(out@) =~= before.push(pieces@[j as int]@));
        }
        j += 1;
    }
    assert(texts(pieces@).take(j as int) =~= texts(pieces@));
    out
}

/// The names `ns[from..to]` joined by `/`.
pub(crate) fn join_names(ns: &Vec<String>, from: usize, to: usize) -> (p: String)
    requires
        from <= to <= ns.len(),
    ensures
        p@ == join(texts(ns@).subrange(from as int, to as int)),
{
    let mut out = String::new();
    let mut k: usize = from;
    assert(texts(ns@).subrange(from as int, from as int) =~= Seq::<Seq<char>>::empty());
    while k < to
        invariant
            from <= k <= to <= ns.len(),
            out@ == join(texts(ns@).subrange(from as int, k as int)),
        decreases to - k,
    {
        let ghost next = texts(ns@).subrange(from as int, k + 1);
        assert(next.drop_last() =~= texts(ns@).subrange(from as int, k as int));
        assert(next.last() == ns@[k as int]@);
        if k > from {
            push_char(&mut out, '/');
        } else {
            assert(out@ + ns@[k as int]@ =~= ns@[k as int]@);
        }
        push_text(&mut out, ns[k].as_str());
        k += 1;
    }
    out
}

/// Whether the path starts at the root.
pub fn starts_at_root(p: &str) -> (r: bool)
    ensures
        r == is_absolute(p@),
{
    p.unicode_len() > 0 && p.get_char(0) == '/'
}

/// `p` appended to `base`.
pub fn join_path(base: &str, p: &str) -> (r: String)
    ensures
        r@ == join_paths(base@, p@),
{
    let n = base.unicode_len();
    if starts_at_root(p) || n == 0 {
        return p.to_owned();
    }
    let mut out = base.to_owned();
    if base.get_char(n - 1) != '/' {
        push_char(&mut out, '/');
    }
    push_text(&mut out, p);
    out
}

/// The path in the file store that the virtual path `v` stands for, before
/// the store resolves it.
pub fn complete_path(root: &str, v: &str) -> (r: String)
    ensures
        r@ == under_root(root@, v@),
{
    let ns = segments_of(v);
    assert(texts(ns@).subrange(0, ns.len() as int) =~= texts(ns@));
    let rel = join_names(&ns, 0, ns.len());
    join_path(root, rel.as_str())
}

/// Whether the names `a` are the first names of `b`.
fn names_start_with(b: &Vec<String>, a: &Vec<String>) -> (r: bool)
    ensures
        r == texts(a@).is_prefix_of(texts(b@)),
{
    if a.len() > b.len() {
        return false;
    }
    let mut i: usize = 0;
    while i < a.len()
        invariant
            i <= a.len() <= b.len(),
            texts(a@).take(i as int) == texts(b@).take(i as int),
        decreases a.len() - i,
    {
        if a[i] != b[i] {
            assert(texts(a@)[i as int] != texts(b@).subrange(0, a.len() as int)[i as int]);
            return false;
        }
        i += 1;
        assert(texts(a@).take(i as int) =~= texts(a@).take(i - 1).push(texts(a@)[i - 1]));
        assert(texts(b@).take(i as int) =~= texts(b@).take(i - 1).push(texts(b@)[i - 1]));
    }
    assert(texts(a@).take(i as int) =~= texts(a@));
    assert(texts(b@).take(i as int) =~= texts(b@).subrange(0, a.len() as int));
    true
}

/// Whether `p` lies in the tree below `root`.
pub fn is_within(p: &str, root: &str) -> (r: bool)
    ensures
        r == within(p@, root@),
{
    if starts_at_root(p) != starts_at_root(root) {
        return false;
    }
    let pn = segments_of(p);
    let rn = segments_of(root);
    names_start_with(&pn, &rn)
}

/// Whether a path as the store resolved it lies below `root`: its first
/// names are those of `root`, and none of its names is `..`, which a
/// resolved path never holds.
pub open spec fn confined(p: Seq<char>, root: Seq<char>) -> bool {
    within(p, root) && !has_parent_dir(p)
}

/// What resolving a client's path comes to, given what the file store made
/// of it: not found where the store resolved nothing, denied where it
/// resolved to a path that does not lie below `root`, else that path.
pub open spec fn resolution(root: Seq<char>, found: Option<Seq<char>>) -> Result<
    Seq<char>,
    FtpError,
> {
    match found {
        None => Err(FtpError::NotFound),
        Some(p) => if confined(p, root) {
            Ok(p)
        } else {
            Err(FtpError::PermissionDenied)
        },
    }
}

/// Finishes resolving a client's path. `found` is what the file store made
/// of the path that `complete_path` gave: that path with links and `..`
/// followed, or nothing. A path that comes back lies below `root`.
pub fn resolve(root: &str, found: Option<String>) -> (r: Result<String, FtpError>)
    ensures
        match resolution(
            root@,
            match found {
                Some(p) => Some(p@),
                None => None,
            },
        ) {
            Ok(p) => r is Ok && r->Ok_0@ == p,
            Err(e) => r is Err && r->Err_0 == e,
        },
        r is Ok ==> confined(r->Ok_0@, root@),
{
    match found {
        None => Err(FtpError::NotFound),
        Some(p) => confine(root, p),
    }
}

/// Keeps a resolved path only if it lies below `root`. The path must be as
/// the file store resolved it, with links and `..` followed: only then does
/// the answer speak of the file that the path reaches.
pub fn confine(root: &str, resolved: String) -> (r: Result<String, FtpError>)
    ensures
        confined(resolved@, root@) ==> r == Ok::<String, FtpError>(resolved),
        !confined(resolved@, root@) ==> r == Err::<String, FtpError>(FtpError::PermissionDenied),
{
    if is_within(resolved.as_str(), root) && !invalid_path(resolved.as_str()) {
        Ok(resolved)
    } else {
        Err(FtpError::PermissionDenied)
    }
}

/// The part of `dir` below `root`, as a relative path; an error where `dir`
/// does not lie below `root`.
pub fn strip_prefix(root: &str, dir: &str) -> (r: Result<String, FtpError>)
    ensures
        within(dir@, root@) ==> r is Ok && r->Ok_0@ == join(names_below(root@, dir@)),
        !within(dir@, root@) ==> r == Err::<String, FtpError>(FtpError::PermissionDenied),
{
    if starts_at_root(dir) != starts_at_root(root) {
        return Err(FtpError::PermissionDenied);
    }
    let dn = segments_of(dir);
    let rn = segments_of(root);
    if !names_start_with(&dn, &rn) {
        return Err(FtpError::PermissionDenied);
    }
    assert(texts(dn@).subrange(rn.len() as int, dn.len() as int) =~= names_below(root@, dir@));
    Ok(join_names(&dn, rn.len(), dn.len()))
}

/// The path without its last name.
pub fn get_parent(p: &str) -> (r: Option<String>)
    ensures
        match parent_of(p@) {
            Some(t) => r is Some && r->Some_0@ == t,
            None => r is None,
        },
{
    let ns = segments_of(p);
    if ns.len() == 0 {
        return None;
    }
    assert(texts(ns@).subrange(0, ns.len() - 1) =~= segments(p@).drop_last());
    let rel = join_names(&ns, 0, ns.len() - 1);
    if starts_at_root(p) {
        let mut out = String::new();
        push_char(&mut out, '/');
        push_text(&mut out, rel.as_str());
        assert(out@ =~= rooted(segments(p@).drop_last()));
        Some(out)
    } else {
        Some(rel)
    }
}

/// The names of the path under `root` for a virtual path are those of `root`
/// followed by those of the virtual path: before the store resolves it, the
/// path lies below `root`.
pub proof fn lemma_under_root(root: Seq<char>, v: Seq<char>)
    ensures
        segments(under_root(root, v)) == segments(root) + segments(v),
        within(under_root(root, v), root),
{
    let rel = join(segments(v));
    lemma_segments_plain(v);
    lemma_segments_join(segments(v));
    lemma_join_relative(segments(v));
    lemma_segments_single(Seq::<char>::empty());
    if root.len() == 0 {
        assert(segments(root) + segments(v) =~= segments(v));
        assert(Seq::<char>::empty() =~= root);
    } else if root.last() == '/' {
        let r0 = root.drop_last();
        assert(r0 + seq!['/'] + Seq::<char>::empty() =~= root);
        lemma_segments_concat(r0, Seq::<char>::empty());
        assert(segments(r0) + Seq::<Seq<char>>::empty() =~= segments(r0));
        assert(r0 + seq!['/'] + rel =~= root + rel);
        lemma_segments_concat(r0, rel);
        assert((root + rel)[0] == root[0]);
    } else {
        lemma_segments_concat(root, rel);
        assert((root + seq!['/'] + rel)[0] == root[0]);
    }
    assert((segments(root) + segments(v)).subrange(0, segments(root).len() as int) =~= segments(
        root,
    ));
}

/// A plain name appended to a path adds that name to its names: the result
/// lies wherever the path lies.
pub proof fn lemma_join_name(dir: Seq<char>, name: Seq<char>, root: Seq<char>)
    requires
        plain_name(name),
    ensures
        segments(join_paths(dir, name)) == segments(dir).push(name),
        within(dir, root) ==> within(join_paths(dir, name), root),
        !has_parent_dir(dir) && name != parent_dir() ==> !has_parent_dir(join_paths(dir, name)),
{
    lemma_segments_single(name);
    lemma_segments_single(Seq::<char>::empty());
    assert(name.contains(name[0]));
    assert(!is_absolute(name));
    let joined = join_paths(dir, name);
    if dir.len() == 0 {
        assert(dir =~= Seq::<char>::empty());
        assert(segments(dir).push(name) =~= seq![name]);
    } else if dir.last() == '/' {
        let d0 = dir.drop_last();
        assert(d0 + seq!['/'] + Seq::<char>::empty() =~= dir);
        lemma_segments_concat(d0, Seq::<char>::empty());
        assert(segments(d0) + Seq::<Seq<char>>::empty() =~= segments(d0));
        assert(d0 + seq!['/'] + name =~= dir + name);
        lemma_segments_concat(d0, name);
        assert(segments(d0) + seq![name] =~= segments(d0).push(name));
        assert(joined[0] == dir[0]);
    } else {
        lemma_segments_concat(dir, name);
        assert(segments(dir) + seq![name] =~= segments(dir).push(name));
        assert(joined[0] == dir[0]);
    }
    if within(dir, root) {
        let n = segments(root).len() as int;
        assert(segments(joined).subrange(0, n) =~= segments(dir).subrange(0, n));
    }
}

/// Plain names joined never start at the root.
pub proof fn lemma_join_relative(ns: Seq<Seq<char>>)
    requires
        forall|i: int| 0 <= i < ns.len() ==> plain_name(#[trigger] ns[i]),
    ensures
        !is_absolute(join(ns)),
    decreases ns.len(),
{
    if ns.len() == 1 {
        assert(plain_name(ns[0]));
        assert(ns[0].contains(ns[0][0]));
    } else if ns.len() > 1 {
        lemma_join_relative(ns.drop_last());
        let init = join(ns.drop_last());
        lemma_join_nonempty(ns.drop_last());
        assert((init + seq!['/'] + ns.last())[0] == init[0]);
    }
}

/// One or more plain names joined are not the empty text.
pub proof fn lemma_join_nonempty(ns: Seq<Seq<char>>)
    requires
        ns.len() > 0,
        forall|i: int| 0 <= i < ns.len() ==> plain_name(#[trigger] ns[i]),
    ensures
        join(ns).len() > 0,
{
    if ns.len() == 1 {
        assert(plain_name(ns[0]));
    }
}

} // verus!
