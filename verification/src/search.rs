//! Searching a byte string for a byte.

use vstd::prelude::*;

verus! {

/// `i` is the position of the first `needle` in `s`.
pub open spec fn first_at(s: Seq<u8>, needle: u8, i: int) -> bool {
    &&& 0 <= i < s.len()
    &&& s[i] == needle
    &&& forall|j: int| 0 <= j < i ==> s[j] != needle
}

/// `needle` occurs nowhere in `s`.
pub open spec fn absent(s: Seq<u8>, needle: u8) -> bool {
    forall|j: int| 0 <= j < s.len() ==> s[j] != needle
}

/// `memchr::memchr` searches `haystack` for `needle`. Its documentation
/// promises the index of the first occurrence, which is below the length of
/// the haystack, or `None` where the byte does not occur; the contract says
/// exactly that and nothing more.
pub assume_specification[ memchr::memchr ](needle: u8, haystack: &[u8]) -> (found: Option<usize>)
    ensures
        match found {
            Some(i) => first_at(haystack@, needle, i as int),
            None => absent(haystack@, needle),
        },
;

/// A first occurrence found by search is the one `Seq::index_of_first` names.
pub proof fn lemma_first_at_unique(s: Seq<u8>, needle: u8, i: int)
    requires
        first_at(s, needle, i),
    ensures
        s.index_of_first(needle) == Some(i),
{
    s.index_of_first_ensures(needle);
}

/// A byte that is absent has no first occurrence.
pub proof fn lemma_absent_has_no_index(s: Seq<u8>, needle: u8)
    requires
        absent(s, needle),
    ensures
        s.index_of_first(needle) is None,
{
    s.index_of_first_ensures(needle);
}

} // verus!
