//! Verified text utilities: character-level equality and substring search,
//! the ground the identifier extractor and the codec predicate stand on.

use vstd::prelude::*;

verus! {

/// `needle` occurs in `hay` starting at position `i`.
pub open spec fn matches_at(hay: Seq<char>, needle: Seq<char>, i: int) -> bool {
    0 <= i && i + needle.len() <= hay.len() && (forall|d: int|
        0 <= d < needle.len() ==> hay[i + d] == needle[d])
}

/// `needle` occurs somewhere in `hay` at or after position `start`.
pub open spec fn contains_from(hay: Seq<char>, needle: Seq<char>, start: int) -> bool {
    exists|i: int| start <= i && matches_at(hay, needle, i)
}

/// Whether `needle` occurs in `hay` exactly at position `i`.
pub fn is_match_at(hay: &str, needle: &str, i: usize) -> (r: bool)
    ensures
        r == matches_at(hay@, needle@, i as int),
{
    let hay_len = hay.unicode_len();
    let needle_len = needle.unicode_len();
    if i > hay_len || needle_len > hay_len - i {
        return false;
    }
    let mut d: usize = 0;
    while d < needle_len
        invariant
            i + needle_len <= hay_len,
            hay_len == hay@.len(),
            needle_len == needle@.len(),
            d <= needle_len,
            forall|k: int| 0 <= k < d ==> hay@[i + k] == needle@[k],
        decreases needle_len - d,
    {
        if hay.get_char(i + d) != needle.get_char(d) {
            return false;
        }
        d += 1;
    }
    true
}

/// Position of the first occurrence of `needle` in `hay` at or after `start`,
/// or `None` when there is none.
pub fn find_from(hay: &str, needle: &str, start: usize) -> (r: Option<usize>)
    ensures
        match r {
            Some(i) => start <= i && matches_at(hay@, needle@, i as int) && (forall|k: int|
                start <= k < i ==> !matches_at(hay@, needle@, k)),
            None => !contains_from(hay@, needle@, start as int),
        },
{
    let hay_len = hay.unicode_len();
    let needle_len = needle.unicode_len();
    if start > hay_len || needle_len > hay_len - start {
        return None;
    }
    let mut i: usize = start;
    while needle_len <= hay_len - i
        invariant
            start <= i <= hay_len,
            hay_len == hay@.len(),
            needle_len == needle@.len(),
            forall|k: int| start <= k < i ==> !matches_at(hay@, needle@, k),
        decreases hay_len - i,
    {
        if is_match_at(hay, needle, i) {
            return Some(i);
        }
        i += 1;
    }
    None
}

/// Character-for-character equality of two string slices.
pub fn str_eq(a: &str, b: &str) -> (r: bool)
    ensures
        r == (a@ == b@),
{
    let a_len = a.unicode_len();
    let b_len = b.unicode_len();
    if a_len != b_len {
        return false;
    }
    let mut i: usize = 0;
    while i < a_len
        invariant
            a_len == a@.len(),
            a@.len() == b@.len(),
            i <= a_len,
            forall|k: int| 0 <= k < i ==> a@[k] == b@[k],
        decreases a_len - i,
    {
        if a.get_char(i) != b.get_char(i) {
            return false;
        }
        i += 1;
    }
    proof {
        assert(a@ =~= b@);
    }
    true
}

} // verus!
