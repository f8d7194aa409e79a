//! Rearrangements: what it means that a list holds the items of another
//! in another order.

use vstd::prelude::*;

verus! {

/// Whether `order` names every place below `n` once.
pub open spec fn rearranges(order: Seq<int>, n: int) -> bool {
    &&& order.len() == n
    &&& order.no_duplicates()
    &&& forall|j: int| 0 <= j < order.len() ==> 0 <= #[trigger] order[j] < n
}

/// Whether `arranged` holds the items of `items`, the one at place `j`
/// being the one that `items` holds at place `order[j]`.
pub open spec fn rearranged<T>(arranged: Seq<T>, items: Seq<T>, order: Seq<int>) -> bool {
    &&& rearranges(order, items.len() as int)
    &&& arranged.len() == items.len()
    &&& forall|j: int| 0 <= j < arranged.len() ==> #[trigger] arranged[j] == items[order[j]]
}

/// Whether items that a key does not tell apart stand in the order in
/// which they came.
pub open spec fn keeps_ties<T>(arranged: Seq<T>, order: Seq<int>, same: spec_fn(T, T) -> bool) -> bool {
    forall|a: int, b: int|
        0 <= a < b < arranged.len() && same(arranged[a], arranged[b]) ==> order[a] < order[b]
}

/// An order of the places below `i`, with the place `i` put in at some
/// point, is an order of the places below `i + 1`; what stood before the
/// point stands where it stood, and what stood from the point on stands one
/// further.
pub proof fn lemma_insert_place(order: Seq<int>, at: int, i: int)
    requires
        0 <= at <= i,
        rearranges(order, i),
    ensures
        rearranges(order.insert(at, i), i + 1),
        order.insert(at, i)[at] == i,
        forall|j: int| 0 <= j < at ==> #[trigger] order.insert(at, i)[j] == order[j],
        forall|j: int| at < j <= i ==> #[trigger] order.insert(at, i)[j] == order[j - 1],
{
    let placed = order.insert(at, i);
    assert forall|j: int| 0 <= j < placed.len() implies 0 <= #[trigger] placed[j] < i + 1 by {
        if j < at {
            assert(placed[j] == order[j]);
        } else if j > at {
            assert(placed[j] == order[j - 1]);
        }
    }
    assert forall|a: int, b: int|
        0 <= a < placed.len() && 0 <= b < placed.len() && a != b implies placed[a] != placed[b] by {
        let a0 = if a < at {
            a
        } else {
            a - 1
        };
        let b0 = if b < at {
            b
        } else {
            b - 1
        };
        if a != at {
            assert(placed[a] == order[a0]);
        }
        if b != at {
            assert(placed[b] == order[b0]);
        }
    }
}

/// Putting the next item of a list in at some place of a rearrangement
/// of the items before it gives a rearrangement of the items up to it.
pub proof fn lemma_insert_rearranged<T>(
    before: Seq<T>,
    order: Seq<int>,
    items: Seq<T>,
    at: int,
    i: int,
)
    requires
        0 <= i < items.len(),
        0 <= at <= i,
        rearranged(before, items.take(i), order),
    ensures
        rearranged(before.insert(at, items[i]), items.take(i + 1), order.insert(at, i)),
{
    lemma_insert_place(order, at, i);
    let after = before.insert(at, items[i]);
    let placed = order.insert(at, i);
    let upto = items.take(i + 1);
    assert forall|j: int| 0 <= j < after.len() implies #[trigger] after[j] == upto[placed[j]] by {
        if j < at {
            assert(after[j] == before[j]);
        } else if j > at {
            assert(after[j] == before[j - 1]);
        }
    }
}

} // verus!
