//! The first item of a sequence of which something holds.

use vstd::prelude::*;

verus! {

/// The least index from `start` on at which `wanted` holds of an item, or the length of
/// `items` where it holds of none.
pub open spec fn first_from<T>(items: Seq<T>, wanted: spec_fn(T) -> bool, start: int) -> int
    recommends
        0 <= start,
    decreases items.len() - start,
{
    if start >= items.len() {
        items.len() as int
    } else if wanted(items[start]) {
        start
    } else {
        first_from(items, wanted, start + 1)
    }
}

/// The least index at which `wanted` holds of an item, or the length of `items` where it
/// holds of none.
pub open spec fn first<T>(items: Seq<T>, wanted: spec_fn(T) -> bool) -> int {
    first_from(items, wanted, 0)
}

/// `first_from` is the least such index: `wanted` holds at it, if it is an index at all,
/// and at no index between `start` and it.
pub proof fn lemma_first_from<T>(items: Seq<T>, wanted: spec_fn(T) -> bool, start: int)
    requires
        0 <= start <= items.len(),
    ensures
        start <= first_from(items, wanted, start) <= items.len(),
        first_from(items, wanted, start) < items.len() ==> wanted(
            items[first_from(items, wanted, start)],
        ),
        forall|j: int| start <= j < first_from(items, wanted, start) ==> !wanted(#[trigger] items[j]),
    decreases items.len() - start,
{
    if start < items.len() && !wanted(items[start]) {
        lemma_first_from(items, wanted, start + 1);
    }
}

/// An index at which `wanted` holds, with none before it at which it does, is `first`.
pub proof fn lemma_first_is<T>(items: Seq<T>, wanted: spec_fn(T) -> bool, at: int)
    requires
        0 <= at <= items.len(),
        at < items.len() ==> wanted(items[at]),
        forall|j: int| 0 <= j < at ==> !wanted(#[trigger] items[j]),
    ensures
        first(items, wanted) == at,
{
    lemma_first_from(items, wanted, 0);
}

} // verus!
