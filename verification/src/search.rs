//! First-occurrence substring search over byte slices.
//!
//! The search itself is done by the `memchr` crate; its result is pinned
//! down here to the first index at which the needle occurs.

use vstd::prelude::*;

verus! {

/// The needle occurs in the haystack at position `i`.
pub open spec fn matches_at(h: Seq<u8>, n: Seq<u8>, i: int) -> bool {
    &&& 0 <= i
    &&& i + n.len() <= h.len()
    &&& h.subrange(i, i + n.len()) == n
}

/// The needle occurs somewhere in the haystack.
pub open spec fn occurs(h: Seq<u8>, n: Seq<u8>) -> bool {
    exists|i: int| matches_at(h, n, i)
}

/// `i` is the first position at which the needle occurs.
pub open spec fn is_first_match(h: Seq<u8>, n: Seq<u8>, i: int) -> bool {
    &&& matches_at(h, n, i)
    &&& forall|j: int| 0 <= j < i ==> !matches_at(h, n, j)
}

/// The first position at which the needle occurs, where it occurs at all.
pub open spec fn first_match(h: Seq<u8>, n: Seq<u8>) -> int {
    choose|i: int| is_first_match(h, n, i)
}

/// There is at most one first match, so a witness settles `first_match`.
pub proof fn lemma_first_match_unique(h: Seq<u8>, n: Seq<u8>, i: int)
    requires
        is_first_match(h, n, i),
    ensures
        first_match(h, n) == i,
{
    assert(exists|k: int| is_first_match(h, n, k));
    let k = choose|k: int| is_first_match(h, n, k);
    if k < i {
        assert(!matches_at(h, n, k));
    }
    if k > i {
        assert(!matches_at(h, n, i));
    }
}

/// Relies on `memchr::memmem::find`: it returns the index of the first
/// occurrence of the needle in the haystack, and nothing when the needle
/// does not occur (an empty needle occurs at index zero).
pub assume_specification [ memchr::memmem::find ](haystack: &[u8], needle: &[u8]) -> (r: Option<
    usize,
>)
    ensures
        r matches Some(i) ==> is_first_match(haystack@, needle@, i as int),
        (r is None) ==> !occurs(haystack@, needle@),
;

} // verus!
