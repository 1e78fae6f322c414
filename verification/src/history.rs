//! Picking from a sequence of events or actions what a statement is about.

use vstd::prelude::*;

verus! {

/// What `pick` finds in each of `items`, in order.
pub open spec fn picked<A, B>(items: Seq<A>, pick: spec_fn(A) -> Option<B>) -> Seq<B>
    decreases items.len(),
{
    if items.len() == 0 {
        Seq::empty()
    } else {
        let before = picked(items.drop_last(), pick);
        match pick(items.last()) {
            Some(found) => before.push(found),
            None => before,
        }
    }
}

/// The first of `items`, if there is one.
pub open spec fn first<A>(items: Seq<A>) -> Option<A> {
    if items.len() == 0 {
        None
    } else {
        Some(items[0])
    }
}

/// One more item adds what `pick` finds in it, at the end.
pub(crate) proof fn lemma_picked_push<A, B>(items: Seq<A>, item: A, pick: spec_fn(A) -> Option<B>)
    ensures
        picked(items.push(item), pick) == match pick(item) {
            Some(found) => picked(items, pick).push(found),
            None => picked(items, pick),
        },
{
    assert(items.push(item).drop_last() =~= items);
}

} // verus!
