//! The first element of a sequence that satisfies a predicate.

use vstd::prelude::*;

verus! {

/// The index of the first element of `s` for which `p` holds, if any.
pub open spec fn first_match<T>(s: Seq<T>, p: spec_fn(T) -> bool) -> Option<int>
    decreases s.len(),
{
    if s.len() == 0 {
        None
    } else {
        match first_match(s.drop_last(), p) {
            Some(i) => Some(i),
            None => if p(s.last()) {
                Some(s.len() - 1)
            } else {
                None
            },
        }
    }
}

/// `i` is the index of the first element of `s` for which `p` holds.
pub open spec fn is_first_match<T>(s: Seq<T>, p: spec_fn(T) -> bool, i: int) -> bool {
    &&& 0 <= i < s.len()
    &&& p(s[i])
    &&& forall|j: int| 0 <= j < i ==> !p(#[trigger] s[j])
}

/// `first_match` finds the first matching element, and finds none only
/// where no element matches.
pub proof fn lemma_first_match<T>(s: Seq<T>, p: spec_fn(T) -> bool)
    ensures
        match first_match(s, p) {
            Some(i) => is_first_match(s, p, i),
            None => forall|j: int| 0 <= j < s.len() ==> !p(#[trigger] s[j]),
        },
    decreases s.len(),
{
    if s.len() > 0 {
        lemma_first_match(s.drop_last(), p);
        assert forall|j: int| 0 <= j < s.len() - 1 implies s.drop_last()[j] == s[j] by {}
    }
}

/// Any index of a first match is the one that `first_match` finds.
pub proof fn lemma_first_match_unique<T>(s: Seq<T>, p: spec_fn(T) -> bool, i: int)
    requires
        is_first_match(s, p, i),
    ensures
        first_match(s, p) == Some(i),
{
    lemma_first_match(s, p);
    match first_match(s, p) {
        Some(k) => {
            if k < i {
                assert(!p(s[k]));
            } else if i < k {
                assert(!p(s[i]));
            }
        },
        None => {
            assert(!p(s[i]));
        },
    }
}

/// When no element matches, `first_match` finds nothing.
pub proof fn lemma_first_match_none<T>(s: Seq<T>, p: spec_fn(T) -> bool)
    requires
        forall|j: int| 0 <= j < s.len() ==> !p(#[trigger] s[j]),
    ensures
        first_match(s, p) is None,
{
    lemma_first_match(s, p);
    if let Some(k) = first_match(s, p) {
        assert(p(s[k]));
    }
}

/// Two sequences of the same length whose elements satisfy `p` and `q` at
/// the same places have their first match at the same place.
pub proof fn lemma_first_match_same<T, U>(
    s: Seq<T>,
    p: spec_fn(T) -> bool,
    t: Seq<U>,
    q: spec_fn(U) -> bool,
)
    requires
        s.len() == t.len(),
        forall|j: int| 0 <= j < s.len() ==> p(#[trigger] s[j]) == q(t[j]),
    ensures
        first_match(s, p) == first_match(t, q),
{
    lemma_first_match(s, p);
    lemma_first_match(t, q);
    match first_match(s, p) {
        Some(i) => {
            assert(q(t[i]));
            assert forall|j: int| 0 <= j < i implies !q(#[trigger] t[j]) by {
                assert(!p(s[j]));
            }
            lemma_first_match_unique(t, q, i);
        },
        None => {
            assert forall|j: int| 0 <= j < t.len() implies !q(#[trigger] t[j]) by {
                assert(!p(s[j]));
            }
            lemma_first_match_none(t, q);
        },
    }
}

} // verus!
