//! File-name logic on path strings: the file stem (for the title fallback)
//! and the extension (for the container format hint). A path's file name
//! begins after the last `/`; its last `.` — when it is not the name's
//! first character — separates stem from extension.

use vstd::prelude::*;
use vstd::string::*;

verus! {

/// `a` is the index right after the last `/` of `p` (or `0` when `p` holds
/// no `/`): where the file name begins.
pub open spec fn is_name_start(p: Seq<char>, a: int) -> bool {
    &&& 0 <= a <= p.len()
    &&& (a == 0 || p[a - 1] == '/')
    &&& forall|m: int| a <= m < p.len() ==> p[m] != '/'
}

/// `b` is where the stem of the file name starting at `a` ends: the last
/// `.` strictly after `a`, or the end of `p` when no such `.` exists (a
/// leading `.` belongs to the name, as in a hidden file).
pub open spec fn is_stem_end(p: Seq<char>, a: int, b: int) -> bool {
    ||| (b == p.len() && forall|m: int| a < m < p.len() ==> p[m] != '.')
    ||| (a < b < p.len() && p[b] == '.' && forall|m: int| b < m < p.len() ==> p[m] != '.')
}

/// `stem` is the file stem of `p`.
pub open spec fn is_stem_of(p: Seq<char>, a: int, b: int, stem: Seq<char>) -> bool {
    &&& is_name_start(p, a)
    &&& is_stem_end(p, a, b)
    &&& stem == p.subrange(a, b)
}

/// `ext` is the extension of `p`: what follows the `.` that ends the stem.
pub open spec fn is_extension_of(p: Seq<char>, a: int, b: int, ext: Seq<char>) -> bool {
    &&& is_name_start(p, a)
    &&& a < b < p.len()
    &&& p[b] == '.'
    &&& (forall|m: int| b < m < p.len() ==> p[m] != '.')
    &&& ext == p.subrange(b + 1, p.len() as int)
}

/// The file name of `p` holds no extension separator.
pub open spec fn has_no_extension(p: Seq<char>, a: int) -> bool {
    is_name_start(p, a) && forall|m: int| a < m < p.len() ==> p[m] != '.'
}

/// Find where the file name begins, where its stem ends, and whether an
/// extension separator exists.
fn split_indices(path: &str) -> (split: (usize, usize, bool))
    ensures
        is_name_start(path@, split.0 as int),
        split.2 ==> split.0 < split.1 < path@.len() && path@[split.1 as int] == '.' && (forall|
            m: int,
        | split.1 < m < path@.len() ==> path@[m] != '.'),
        !split.2 ==> split.1 == path@.len() && (forall|m: int|
            split.0 < m < path@.len() ==> path@[m] != '.'),
{
    let n = path.unicode_len();
    let mut name_start: usize = 0;
    let mut k: usize = 0;
    while k < n
        invariant
            k <= n,
            n == path@.len(),
            name_start <= k,
            name_start == 0 || path@[name_start - 1] == '/',
            forall|m: int| name_start <= m < k ==> path@[m] != '/',
        decreases n - k,
    {
        if path.get_char(k) == '/' {
            name_start = k + 1;
        }
        k = k + 1;
    }
    let mut stem_end: usize = n;
    let mut saw_dot = false;
    let mut k: usize = name_start;
    while k < n
        invariant
            name_start <= k <= n,
            n == path@.len(),
            !saw_dot ==> stem_end == n && (forall|m: int|
                name_start < m < k ==> path@[m] != '.'),
            saw_dot ==> name_start < stem_end < k && path@[stem_end as int] == '.' && (forall|
                m: int,
            | stem_end < m < k ==> path@[m] != '.'),
        decreases n - k,
    {
        if k > name_start && path.get_char(k) == '.' {
            stem_end = k;
            saw_dot = true;
        }
        k = k + 1;
    }
    (name_start, stem_end, saw_dot)
}

/// The file stem of a path: its file name up to the extension separator.
/// The title of an untagged file falls back to this.
pub fn path_file_stem(path: &str) -> (stem: String)
    ensures
        exists|a: int, b: int| #[trigger] is_stem_of(path@, a, b, stem@),
{
    let split = split_indices(path);
    let stem = path.substring_char(split.0, split.1).to_owned();
    proof {
        assert(is_stem_of(path@, split.0 as int, split.1 as int, stem@));
    }
    stem
}

/// The extension of a path, used as the container format hint; absent when
/// the file name holds no separator.
pub fn path_extension(path: &str) -> (ext: Option<String>)
    ensures
        match ext {
            Some(e) => exists|a: int, b: int| #[trigger] is_extension_of(path@, a, b, e@),
            None => exists|a: int| #[trigger] has_no_extension(path@, a),
        },
{
    let split = split_indices(path);
    let n = path.unicode_len();
    if split.2 {
        let e = path.substring_char(split.1 + 1, n).to_owned();
        let ext = Some(e);
        proof {
            assert(is_extension_of(path@, split.0 as int, split.1 as int, (ext->0)@));
        }
        ext
    } else {
        proof {
            assert(has_no_extension(path@, split.0 as int));
        }
        None
    }
}

} // verus!
