//! The first element of a sequence that a predicate accepts.

use vstd::prelude::*;

verus! {

/// The least index from `k` on at which `p` holds in `s`, if there is one.
pub open spec fn first_from<T>(s: Seq<T>, p: spec_fn(T) -> bool, k: int) -> Option<int>
    decreases s.len() - k,
{
    if k < 0 || k >= s.len() {
        None
    } else if p(s[k]) {
        Some(k)
    } else {
        first_from(s, p, k + 1)
    }
}

/// The least index at which `p` holds in `s`, if there is one.
pub open spec fn first_index<T>(s: Seq<T>, p: spec_fn(T) -> bool) -> Option<int> {
    first_from(s, p, 0)
}

/// `first_from` finds an index exactly when `p` holds somewhere from `k` on,
/// and then the index it gives is the least such.
pub proof fn lemma_first_from<T>(s: Seq<T>, p: spec_fn(T) -> bool, k: int)
    requires
        0 <= k <= s.len(),
    ensures
        match first_from(s, p, k) {
            Some(i) => k <= i < s.len() && p(s[i]) && forall|j: int| k <= j < i ==> !p(s[j]),
            None => forall|j: int| k <= j < s.len() ==> !p(s[j]),
        },
    decreases s.len() - k,
{
    if k < s.len() && !p(s[k]) {
        lemma_first_from(s, p, k + 1);
    }
}

/// `first_index` finds an index exactly when `p` holds somewhere in `s`, and
/// then the index it gives is the least such.
pub proof fn lemma_first_index<T>(s: Seq<T>, p: spec_fn(T) -> bool)
    ensures
        match first_index(s, p) {
            Some(i) => 0 <= i < s.len() && p(s[i]) && forall|j: int| 0 <= j < i ==> !p(s[j]),
            None => forall|j: int| 0 <= j < s.len() ==> !p(s[j]),
        },
{
    lemma_first_from(s, p, 0);
}

} // verus!
