//! Sequences of results that may be missing: where the first one is missing,
//! and what they hold where none is.

use vstd::prelude::*;

verus! {

/// The position of the first of `items` at or after `start` that is `None`.
pub open spec fn first_none_from<T>(items: Seq<Option<T>>, start: int) -> Option<int>
    decreases items.len() - start,
{
    if start < 0 || start >= items.len() {
        None
    } else if items[start] is None {
        Some(start)
    } else {
        first_none_from(items, start + 1)
    }
}

/// The position of the first of `items` that is `None`.
pub open spec fn first_none<T>(items: Seq<Option<T>>) -> Option<int> {
    first_none_from(items, 0)
}

/// What `items` hold, where none of them is `None`.
pub open spec fn unwrapped<T>(items: Seq<Option<T>>) -> Seq<T> {
    Seq::new(items.len(), |i: int| items[i].unwrap())
}

/// A search from `start` finds the first `None` at or after `start`, and
/// fails only where there is none.
pub proof fn lemma_first_none_from<T>(items: Seq<Option<T>>, start: int)
    requires
        0 <= start <= items.len(),
    ensures
        match first_none_from(items, start) {
            Some(i) => start <= i < items.len() && items[i] is None && forall|j: int|
                start <= j < i ==> items[j] is Some,
            None => forall|j: int| start <= j < items.len() ==> items[j] is Some,
        },
    decreases items.len() - start,
{
    if start < items.len() && items[start] is Some {
        lemma_first_none_from(items, start + 1);
    }
}

/// The first `None` of `items` is at `i` if all before it are `Some`.
pub proof fn lemma_first_none_at<T>(items: Seq<Option<T>>, i: int)
    requires
        0 <= i < items.len(),
        items[i] is None,
        forall|j: int| 0 <= j < i ==> items[j] is Some,
    ensures
        first_none(items) == Some(i),
{
    lemma_first_none_from(items, 0);
}

/// There is no `None` among `items` if all of them are `Some`.
pub proof fn lemma_no_none<T>(items: Seq<Option<T>>)
    requires
        forall|j: int| 0 <= j < items.len() ==> items[j] is Some,
    ensures
        first_none(items) is None,
{
    lemma_first_none_from(items, 0);
}

} // verus!
