//! Finding the first item of a sequence that meets a predicate.

use vstd::prelude::*;

verus! {

/// The first position at or after `start` whose item meets `pred`, if there is one.
pub open spec fn first_index_from<T>(s: Seq<T>, pred: spec_fn(T) -> bool, start: int) -> Option<
    int,
>
    decreases s.len() - start,
{
    if start < 0 || start >= s.len() {
        None
    } else if pred(s[start]) {
        Some(start)
    } else {
        first_index_from(s, pred, start + 1)
    }
}

/// The first position whose item meets `pred`, if there is one.
pub open spec fn first_index<T>(s: Seq<T>, pred: spec_fn(T) -> bool) -> Option<int> {
    first_index_from(s, pred, 0)
}

/// What the search finds is in range, meets the predicate and has no match before it;
/// where it finds nothing, nothing from `start` on meets the predicate.
pub proof fn lemma_first_index_from<T>(s: Seq<T>, pred: spec_fn(T) -> bool, start: int)
    requires
        0 <= start,
    ensures
        match first_index_from(s, pred, start) {
            Some(i) => start <= i < s.len() && pred(s[i]) && forall|j: int|
                start <= j < i ==> !pred(#[trigger] s[j]),
            None => forall|j: int| start <= j < s.len() ==> !pred(#[trigger] s[j]),
        },
    decreases s.len() - start,
{
    if start < s.len() && !pred(s[start]) {
        lemma_first_index_from(s, pred, start + 1);
    }
}

/// The search from the front, stated as in [`lemma_first_index_from`].
pub proof fn lemma_first_index<T>(s: Seq<T>, pred: spec_fn(T) -> bool)
    ensures
        match first_index(s, pred) {
            Some(i) => 0 <= i < s.len() && pred(s[i]) && forall|j: int|
                0 <= j < i ==> !pred(#[trigger] s[j]),
            None => forall|j: int| 0 <= j < s.len() ==> !pred(#[trigger] s[j]),
        },
{
    lemma_first_index_from(s, pred, 0);
}

/// Where exactly one item meets the predicate, the search finds it, wherever it stands.
pub proof fn lemma_first_index_of_only_match<T>(s: Seq<T>, pred: spec_fn(T) -> bool, k: int)
    requires
        0 <= k < s.len(),
        pred(s[k]),
        forall|j: int| 0 <= j < s.len() && j != k ==> !pred(#[trigger] s[j]),
    ensures
        first_index(s, pred) == Some(k),
{
    lemma_first_index(s, pred);
}

} // verus!
