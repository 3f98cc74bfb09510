//! A plain-string model of filesystem paths.
//!
//! Paths are `String`s whose components are separated by `/`.  The helpers
//! here — parent directory, file name, file stem, join, suffix test — are the
//! whole path vocabulary the operation machines use, each with an exact
//! specification over the path's character sequence.

use vstd::prelude::*;
use crate::errors::OpError;

verus! {

/// The index of the last occurrence of `c` in `s`, or `-1` if `c` does not
/// occur.
pub open spec fn last_index_of(s: Seq<char>, c: char) -> int
    decreases s.len(),
{
    if s.len() == 0 {
        -1
    } else if s[s.len() - 1] == c {
        s.len() - 1
    } else {
        last_index_of(s.drop_last(), c)
    }
}

/// `last_index_of` is a position of `c` with no later occurrence, and is
/// `-1` exactly when `c` does not occur.
pub proof fn lemma_last_index_of(s: Seq<char>, c: char)
    ensures
        -1 <= last_index_of(s, c) < s.len(),
        last_index_of(s, c) >= 0 ==> s[last_index_of(s, c)] == c,
        forall|j: int| last_index_of(s, c) < j < s.len() ==> s[j] != c,
    decreases s.len(),
{
    if s.len() > 0 && s[s.len() - 1] != c {
        lemma_last_index_of(s.drop_last(), c);
        assert forall|j: int| last_index_of(s, c) < j < s.len() implies s[j] != c by {
            if j < s.len() - 1 {
                assert(s.drop_last()[j] == s[j]);
            }
        }
    }
}

/// Finds the last occurrence of `c` in `s`.
pub fn find_last_char(s: &str, c: char) -> (r: Option<usize>)
    ensures
        match r {
            Some(i) => i < s@.len() && last_index_of(s@, c) == i as int,
            None => last_index_of(s@, c) == -1,
        },
{
    let n = s.unicode_len();
    let mut i = n;
    proof {
        assert(s@.take(n as int) =~= s@);
    }
    while i > 0
        invariant
            i <= n,
            n == s@.len(),
            last_index_of(s@, c) == last_index_of(s@.take(i as int), c),
        decreases i,
    {
        let ch = s.get_char(i - 1);
        proof {
            assert(s@.take(i as int).len() == i);
            assert(s@.take(i as int)[i - 1] == s@[i - 1]);
        }
        if ch == c {
            return Some(i - 1);
        }
        proof {
            assert(s@.take(i as int).drop_last() =~= s@.take(i as int - 1));
        }
        i = i - 1;
    }
    proof {
        assert(s@.take(0) =~= Seq::<char>::empty());
    }
    None
}

/// The parent directory of `s`: the prefix before the last `/`, or `/`
/// itself when the last `/` is the leading one.  A path without a separator,
/// and the root `/` alone, have no parent.
pub open spec fn parent_of_spec(s: Seq<char>) -> Option<Seq<char>> {
    let i = last_index_of(s, '/');
    if i < 0 {
        None
    } else if s.len() == 1 {
        None
    } else if i == 0 {
        Some("/"@)
    } else {
        Some(s.take(i))
    }
}

/// The parent directory of `p`, if it has one.
pub fn parent_of(p: &str) -> (r: Option<String>)
    ensures
        match r {
            Some(d) => parent_of_spec(p@) == Some(d@),
            None => parent_of_spec(p@) is None,
        },
{
    match find_last_char(p, '/') {
        None => None,
        Some(i) => {
            let n = p.unicode_len();
            if n == 1 {
                None
            } else if i == 0 {
                Some(String::from_str("/"))
            } else {
                let d = p.substring_char(0, i);
                Some(String::from_str(d))
            }
        },
    }
}

/// The parent directory of `p`, or `OpError::NoParentDirectory` when `p`
/// has none.
pub fn get_directory_of(p: &str) -> (r: Result<String, OpError>)
    ensures
        match r {
            Ok(d) => parent_of_spec(p@) == Some(d@),
            Err(e) => parent_of_spec(p@) is None && e == OpError::NoParentDirectory,
        },
{
    match parent_of(p) {
        Some(d) => Ok(d),
        None => Err(OpError::NoParentDirectory),
    }
}

/// The final component of `s`: everything after the last `/`, or all of `s`
/// when it has no separator.
pub open spec fn file_name_spec(s: Seq<char>) -> Seq<char> {
    let i = last_index_of(s, '/');
    if i < 0 {
        s
    } else {
        s.skip(i + 1)
    }
}

/// The final component of `p`.
pub fn file_name_of(p: &str) -> (r: String)
    ensures
        r@ == file_name_spec(p@),
{
    match find_last_char(p, '/') {
        None => String::from_str(p),
        Some(i) => {
            let n = p.unicode_len();
            let t = p.substring_char(i + 1, n);
            proof {
                assert(p@.skip(i + 1) =~= p@.subrange(i + 1, p@.len() as int));
            }
            String::from_str(t)
        },
    }
}

/// The stem of the final component of `s`: the component with everything
/// from its last `.` on removed, unless that `.` is its first character or
/// absent, in which case the whole component.  An empty component has no
/// stem.
pub open spec fn file_stem_spec(s: Seq<char>) -> Option<Seq<char>> {
    let name = file_name_spec(s);
    if name.len() == 0 {
        None
    } else {
        let j = last_index_of(name, '.');
        if j <= 0 {
            Some(name)
        } else {
            Some(name.take(j))
        }
    }
}

/// The stem of the final component of `p`, if that component is not empty.
pub fn file_stem_of(p: &str) -> (r: Option<String>)
    ensures
        match r {
            Some(t) => file_stem_spec(p@) == Some(t@),
            None => file_stem_spec(p@) is None,
        },
{
    let name = file_name_of(p);
    let n = name.as_str().unicode_len();
    if n == 0 {
        return None;
    }
    match find_last_char(name.as_str(), '.') {
        None => Some(name),
        Some(j) => {
            if j == 0 {
                Some(name)
            } else {
                let t = name.as_str().substring_char(0, j);
                Some(String::from_str(t))
            }
        },
    }
}

/// `base` and `name` joined with a separator; no second separator is added
/// when `base` already ends with one.
pub open spec fn join_spec(base: Seq<char>, name: Seq<char>) -> Seq<char> {
    if base.len() > 0 && base[base.len() - 1] == '/' {
        base + name
    } else {
        base + "/"@ + name
    }
}

/// Joins `base` and `name` into one path.
pub fn path_join(base: &str, name: &str) -> (r: String)
    ensures
        r@ == join_spec(base@, name@),
{
    let n = base.unicode_len();
    let mut r = String::from_str(base);
    if n == 0 || base.get_char(n - 1) != '/' {
        r.append("/");
    }
    r.append(name);
    r
}

/// `s` ends with `suffix`.
pub open spec fn ends_with_spec(s: Seq<char>, suffix: Seq<char>) -> bool {
    suffix.len() <= s.len() && s.skip(s.len() - suffix.len()) == suffix
}

/// Whether `s` ends with `suffix`.
pub fn ends_with_str(s: &str, suffix: &str) -> (r: bool)
    ensures
        r == ends_with_spec(s@, suffix@),
{
    let n = s.unicode_len();
    let m = suffix.unicode_len();
    if m > n {
        return false;
    }
    let mut k: usize = 0;
    while k < m
        invariant
            k <= m,
            m <= n,
            n == s@.len(),
            m == suffix@.len(),
            forall|j: int| 0 <= j < k ==> s@[n - m + j] == suffix@[j],
        decreases m - k,
    {
        if s.get_char(n - m + k) != suffix.get_char(k) {
            proof {
                assert(s@.skip(n - m)[k as int] != suffix@[k as int]);
            }
            return false;
        }
        k = k + 1;
    }
    proof {
        assert(s@.skip(n - m) =~= suffix@);
    }
    true
}

/// `s` contains no separator.
pub open spec fn sep_free(s: Seq<char>) -> bool {
    forall|j: int| 0 <= j < s.len() ==> s[j] != '/'
}

/// A parent directory is strictly shorter than its path.
pub proof fn lemma_parent_shorter(s: Seq<char>)
    requires
        parent_of_spec(s) is Some,
    ensures
        parent_of_spec(s).unwrap().len() < s.len(),
{
    lemma_last_index_of(s, '/');
    reveal_strlit("/");
}

/// The final component of a path contains no separator.
pub proof fn lemma_file_name_no_sep(s: Seq<char>)
    ensures
        sep_free(file_name_spec(s)),
{
    lemma_last_index_of(s, '/');
}

/// The stem of a path's final component contains no separator.
pub proof fn lemma_file_stem_no_sep(s: Seq<char>)
    ensures
        file_stem_spec(s) matches Some(h) ==> sep_free(h),
{
    lemma_file_name_no_sep(s);
    let name = file_name_spec(s);
    lemma_last_index_of(name, '.');
    match file_stem_spec(s) {
        Some(h) => {
            assert forall|j: int| 0 <= j < h.len() implies h[j] != '/' by {
                assert(h[j] == name[j]);
            }
        },
        None => {},
    }
}

/// `path` lies at or under the directory `dir`: it is `dir` itself, or has
/// `dir` as a prefix followed by a separator.
pub open spec fn is_under_spec(path: Seq<char>, dir: Seq<char>) -> bool {
    ||| path == dir
    ||| (dir.len() < path.len() && path.take(dir.len() as int) == dir && path[dir.len() as int]
        == '/')
}

/// Whether `path` lies at or under the directory `dir`.
pub fn path_is_under(path: &str, dir: &str) -> (r: bool)
    ensures
        r == is_under_spec(path@, dir@),
{
    let n = path.unicode_len();
    let m = dir.unicode_len();
    if n < m {
        proof {
            assert(path@ != dir@) by {
                assert(path@.len() != dir@.len());
            }
        }
        return false;
    }
    let mut k: usize = 0;
    while k < m
        invariant
            k <= m,
            m <= n,
            n == path@.len(),
            m == dir@.len(),
            forall|j: int| 0 <= j < k ==> path@[j] == dir@[j],
        decreases m - k,
    {
        if path.get_char(k) != dir.get_char(k) {
            proof {
                assert(path@.take(m as int)[k as int] != dir@[k as int]);
                if path@.len() == dir@.len() {
                    assert(path@[k as int] != dir@[k as int]);
                }
            }
            return false;
        }
        k = k + 1;
    }
    if n == m {
        proof {
            assert(path@ =~= dir@);
        }
        true
    } else {
        proof {
            assert(path@.take(m as int) =~= dir@);
        }
        path.get_char(m) == '/'
    }
}

} // verus!
