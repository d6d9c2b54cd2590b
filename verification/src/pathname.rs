//! Name and path derivations for the media cache.
//!
//! A cache entry is keyed by the member's base name: the part of the member
//! name after the last directory separator, with its extension stripped. A
//! name whose only dot is its first character keeps that dot (it has no
//! extension), as does a name with no dot at all.

use vstd::prelude::*;
use vstd::string::*;

verus! {

/// Index of the last occurrence of `c` in `s`, or -1 when `c` is absent.
pub open spec fn last_index_of_char(s: Seq<char>, c: char) -> int
    decreases s.len(),
{
    if s.len() == 0 {
        -1
    } else if s.last() == c {
        s.len() - 1
    } else {
        last_index_of_char(s.drop_last(), c)
    }
}

proof fn lemma_last_index_at(s: Seq<char>, c: char, k: int)
    requires
        0 <= k < s.len(),
        s[k] == c,
        forall|j: int| k < j < s.len() ==> s[j] != c,
    ensures
        last_index_of_char(s, c) == k,
    decreases s.len(),
{
    if k < s.len() - 1 {
        lemma_last_index_at(s.drop_last(), c, k);
    }
}

proof fn lemma_last_index_absent(s: Seq<char>, c: char)
    requires
        forall|j: int| 0 <= j < s.len() ==> s[j] != c,
    ensures
        last_index_of_char(s, c) == -1,
    decreases s.len(),
{
    if s.len() > 0 {
        lemma_last_index_absent(s.drop_last(), c);
    }
}

/// Index of the last occurrence of `c`, if any.
fn last_index_of(s: &str, c: char) -> (r: Option<usize>)
    ensures
        r matches Some(k) ==> k < s@.len() && last_index_of_char(s@, c) == k as int,
        r is None ==> last_index_of_char(s@, c) == -1,
{
    let n = s.unicode_len();
    let mut i = n;
    while i > 0
        invariant
            i <= n,
            n == s@.len(),
            forall|j: int| i <= j < n ==> s@[j] != c,
        decreases i,
    {
        i = i - 1;
        if s.get_char(i) == c {
            proof {
                lemma_last_index_at(s@, c, i as int);
            }
            return Some(i);
        }
    }
    proof {
        lemma_last_index_absent(s@, c);
    }
    None
}

/// The part of a member name after the last directory separator.
pub open spec fn file_name_part(path: Seq<char>) -> Seq<char> {
    path.subrange(last_index_of_char(path, '/') + 1, path.len() as int)
}

/// The file name with its extension stripped: everything before the last
/// dot, unless that dot is absent or is the leading character.
pub open spec fn stem_of(f: Seq<char>) -> Seq<char> {
    let d = last_index_of_char(f, '.');
    if d <= 0 {
        f
    } else {
        f.subrange(0, d)
    }
}

/// The cache key derived from a member name.
pub open spec fn base_name_spec(member: Seq<char>) -> Seq<char> {
    stem_of(file_name_part(member))
}

/// Derives the cache key for a member name.
pub fn base_name(member: &str) -> (b: String)
    ensures
        b@ == base_name_spec(member@),
{
    let n = member.unicode_len();
    let start = match last_index_of(member, '/') {
        Some(k) => k + 1,
        None => 0,
    };
    let fname = member.substring_char(start, n);
    proof {
        assert(fname@ =~= file_name_part(member@));
    }
    let m = fname.unicode_len();
    let cut = match last_index_of(fname, '.') {
        Some(k) => if k > 0 {
            k
        } else {
            m
        },
        None => m,
    };
    let stem = fname.substring_char(0, cut);
    proof {
        assert(stem@ =~= stem_of(fname@));
    }
    String::from_str(stem)
}

/// `root`, a separator, then `name` with `ext` appended.
pub fn join_under(root: &str, name: &str, ext: &str) -> (p: String)
    ensures
        p@ == root@ + "/"@ + name@ + ext@,
{
    let mut s = String::from_str(root);
    s.append("/");
    s.append(name);
    s.append(ext);
    proof {
        assert(s@ =~= root@ + "/"@ + name@ + ext@);
    }
    s
}

} // verus!
