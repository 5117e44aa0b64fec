//! Paths in their textual form, with `/` as the separator.
use vstd::prelude::*;
use vstd::string::*;

use crate::text::{find_last, last_index_of, lemma_last_index_of, opt_chars};

verus! {

/// How many characters end `p` with a separator or a `/.` component: 1, 2,
/// or 0 where it ends otherwise.
pub open spec fn trailing_piece(p: Seq<char>) -> int {
    if p.len() > 0 && p.last() == '/' {
        1
    } else if p.len() >= 2 && p.last() == '.' && p[p.len() - 2] == '/' {
        2
    } else {
        0
    }
}

/// `p` without the separators and `/.` components that end it.
pub open spec fn trim_trailing(p: Seq<char>) -> Seq<char>
    decreases p.len(),
{
    if trailing_piece(p) > 0 {
        trim_trailing(p.subrange(0, p.len() - trailing_piece(p)))
    } else {
        p
    }
}

/// The last component of `p`: what follows the last `/` once trailing
/// separators and `/.` components are dropped.
pub open spec fn file_name(p: Seq<char>) -> Seq<char> {
    let q = trim_trailing(p);
    q.subrange(last_index_of(q, '/') + 1, q.len() as int)
}

/// A file name that names a directory by itself: `.` or `..`.
pub open spec fn is_dot_name(f: Seq<char>) -> bool {
    f == seq!['.'] || f == seq!['.', '.']
}

/// The extension of `p`: what follows the last `.` of its file name, where
/// that `.` is not the name's first character.
pub open spec fn extension_of(p: Seq<char>) -> Option<Seq<char>> {
    let f = file_name(p);
    let d = last_index_of(f, '.');
    if d > 0 && !is_dot_name(f) {
        Some(f.subrange(d + 1, f.len() as int))
    } else {
        None
    }
}

/// Where the file name of `p` is neither empty nor a dot name: `p` without
/// what trails its file name, followed by `.e` where `e` is not empty.
/// Otherwise `p` itself.
pub open spec fn with_extension_of(p: Seq<char>, e: Seq<char>) -> Seq<char> {
    let f = file_name(p);
    if f.len() == 0 || is_dot_name(f) {
        p
    } else if e.len() == 0 {
        trim_trailing(p)
    } else {
        trim_trailing(p) + seq!['.'] + e
    }
}

/// `name` placed inside the directory `dir`.
pub open spec fn join_of(dir: Seq<char>, name: Seq<char>) -> Seq<char> {
    if dir.len() == 0 || dir.last() == '/' {
        dir + name
    } else {
        dir + seq!['/'] + name
    }
}

/// The number of characters that end `p[..end]` with a separator or a `/.`
/// component.
fn trailing_piece_len(p: &str, end: usize) -> (r: usize)
    requires
        end <= p@.len(),
    ensures
        r as int == trailing_piece(p@.subrange(0, end as int)),
{
    if end > 0 && p.get_char(end - 1) == '/' {
        1
    } else if end >= 2 && p.get_char(end - 1) == '.' && p.get_char(end - 2) == '/' {
        2
    } else {
        0
    }
}

/// `p` without the separators and `/.` components that end it.
fn trimmed(p: &str) -> (r: &str)
    ensures
        r@ == trim_trailing(p@),
{
    let n = p.unicode_len();
    let mut end: usize = n;
    let mut k = trailing_piece_len(p, end);
    assert(p@.subrange(0, n as int) =~= p@);
    while k > 0
        invariant
            end <= n,
            n == p@.len(),
            k as int == trailing_piece(p@.subrange(0, end as int)),
            trim_trailing(p@) == trim_trailing(p@.subrange(0, end as int)),
        decreases end,
    {
        assert(p@.subrange(0, end as int).subrange(0, end - k) =~= p@.subrange(0, end - k));
        end = end - k;
        k = trailing_piece_len(p, end);
    }
    p.substring_char(0, end)
}

/// The file name of `p` as a slice of it.
fn file_name_str(p: &str) -> (r: &str)
    ensures
        r@ == file_name(p@),
{
    let q = trimmed(p);
    let n = q.unicode_len();
    proof {
        lemma_last_index_of(q@, '/');
    }
    let start = match find_last(q, n, '/') {
        Some(k) => k + 1,
        None => 0,
    };
    q.substring_char(start, n)
}

/// Whether the file name `f`, of length `m`, is `.` or `..`.
fn is_dot_name_str(f: &str, m: usize) -> (r: bool)
    requires
        m == f@.len(),
    ensures
        r == is_dot_name(f@),
{
    if m == 1 {
        let r = f.get_char(0) == '.';
        assert(r ==> f@ =~= seq!['.']);
        r
    } else if m == 2 {
        let r = f.get_char(0) == '.' && f.get_char(1) == '.';
        assert(r ==> f@ =~= seq!['.', '.']);
        r
    } else {
        false
    }
}

/// The extension of `path`, if it has one.
pub fn extension(path: &str) -> (r: Option<String>)
    ensures
        opt_chars(r) == extension_of(path@),
{
    let f = file_name_str(path);
    let m = f.unicode_len();
    proof {
        lemma_last_index_of(f@, '.');
    }
    match find_last(f, m, '.') {
        Some(d) => {
            if d > 0 && !is_dot_name_str(f, m) {
                Some(String::from_str(f.substring_char(d + 1, m)))
            } else {
                None
            }
        },
        None => None,
    }
}

/// `path` with the extension `ext` appended after a `.`, when `path` ends in
/// a file name other than `.` or `..`; what trails the file name is dropped,
/// and an empty `ext` appends nothing.
pub fn with_extension(path: &str, ext: &str) -> (r: String)
    ensures
        r@ == with_extension_of(path@, ext@),
{
    let f = file_name_str(path);
    let m = f.unicode_len();
    if m == 0 || is_dot_name_str(f, m) {
        String::from_str(path)
    } else if ext.unicode_len() == 0 {
        String::from_str(trimmed(path))
    } else {
        let dot = ".";
        proof {
            reveal_strlit(".");
        }
        assert(dot@ =~= seq!['.']);
        String::from_str(trimmed(path)).concat(dot).concat(ext)
    }
}

/// `name` placed inside the directory `dir`.
pub fn join_path(dir: &str, name: &str) -> (r: String)
    ensures
        r@ == join_of(dir@, name@),
{
    let n = dir.unicode_len();
    if n == 0 || dir.get_char(n - 1) == '/' {
        String::from_str(dir).concat(name)
    } else {
        let sep = "/";
        proof {
            reveal_strlit("/");
        }
        assert(sep@ =~= seq!['/']);
        String::from_str(dir).concat(sep).concat(name)
    }
}

} // verus!
