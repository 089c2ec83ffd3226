//! File names and paths inside the working directory.

use vstd::prelude::*;

verus! {

/// The extension that a design file may carry; it is dropped from a name.
pub open spec fn scad_suffix() -> Seq<char> {
    seq!['.', 's', 'c', 'a', 'd']
}

/// `name` with one trailing ".scad" removed, if it has one.
pub open spec fn stem_of(name: Seq<char>) -> Seq<char> {
    if name.len() >= 5 && name.subrange(name.len() - 5, name.len() as int) == scad_suffix() {
        name.subrange(0, name.len() - 5)
    } else {
        name
    }
}

/// Joins a relative path onto `base` the way a Unix path is extended:
/// an absolute `rel` replaces `base`; otherwise a '/' separates the two
/// unless `base` is empty or already ends with one.
pub open spec fn join_path_spec(base: Seq<char>, rel: Seq<char>) -> Seq<char> {
    if rel.len() > 0 && rel[0] == '/' {
        rel
    } else if base.len() == 0 || base[base.len() - 1] == '/' {
        base + rel
    } else {
        base + seq!['/'] + rel
    }
}

/// A path that does not begin at the root.
pub open spec fn is_relative(s: Seq<char>) -> bool {
    s.len() == 0 || s[0] != '/'
}

/// `s` has a ".." segment starting at position `i`.
pub open spec fn parent_segment_at(s: Seq<char>, i: int) -> bool {
    &&& 0 <= i
    &&& i + 2 <= s.len()
    &&& s[i] == '.'
    &&& s[i + 1] == '.'
    &&& (i == 0 || s[i - 1] == '/')
    &&& (i + 2 == s.len() || s[i + 2] == '/')
}

/// `s` has a ".." segment somewhere, so it may climb out of a directory.
pub open spec fn climbs(s: Seq<char>) -> bool {
    exists|i: int| #[trigger] parent_segment_at(s, i)
}

/// `path` lies inside `dir`: it is `dir` joined with a relative path that
/// never climbs out.
pub open spec fn inside(dir: Seq<char>, path: Seq<char>) -> bool {
    exists|rel: Seq<char>| is_relative(rel) && !climbs(rel) && path == #[trigger] join_path_spec(dir, rel)
}

/// A name the manager accepts: relative, and without a ".." segment.
pub open spec fn acceptable_name(name: Seq<char>) -> bool {
    is_relative(name) && !climbs(name)
}

/// An extension that cannot change the directory a file lands in:
/// non-empty, without '/', and not ending in '.'.
pub open spec fn plain_extension(ext: Seq<char>) -> bool {
    &&& ext.len() > 0
    &&& forall|k: int| 0 <= k < ext.len() ==> ext[k] != '/'
    &&& ext.last() != '.'
}

/// Whether `name` is relative and has no ".." segment.
pub fn is_acceptable_name(name: &str) -> (ok: bool)
    ensures
        ok == acceptable_name(name@),
{
    let n = name.unicode_len();
    if n > 0 && name.get_char(0) == '/' {
        return false;
    }
    let mut i: usize = 0;
    while i < n && i + 1 < n
        invariant
            i <= n,
            n == name@.len(),
            is_relative(name@),
            forall|j: int| 0 <= j < i ==> !#[trigger] parent_segment_at(name@, j),
        decreases n - i,
    {
        if name.get_char(i) == '.' && name.get_char(i + 1) == '.' && (i == 0 || name.get_char(i - 1)
            == '/') && (i + 2 == n || name.get_char(i + 2) == '/') {
            assert(parent_segment_at(name@, i as int));
            return false;
        }
        i = i + 1;
    }
    assert forall|j: int| !#[trigger] parent_segment_at(name@, j) by {
        if j >= i {
            assert(j + 2 > n);
        }
    }
    true
}

/// Joins `rel` onto `base` (see `join_path_spec`).
pub fn join_path(base: &str, rel: &str) -> (joined: String)
    ensures
        joined@ == join_path_spec(base@, rel@),
{
    if rel.unicode_len() > 0 && rel.get_char(0) == '/' {
        return String::from_str(rel);
    }
    let n = base.unicode_len();
    let mut joined = String::from_str(base);
    if n > 0 && base.get_char(n - 1) != '/' {
        let sep = "/";
        proof {
            reveal_strlit("/");
        }
        joined.append(sep);
    }
    joined.append(rel);
    joined
}

} // verus!
