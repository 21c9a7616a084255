//! The contract exposed by sequence-producing adapters.

use vstd::prelude::*;

use crate::computation::Poll;

verus! {

/// A source of a sequence of items, advanced by repeated `poll_next`
/// calls: each call returns `Pending`, `Ready(Some(item))` for the next
/// item, or `Ready(None)` for the end of the sequence.
///
/// - `pollable`: whether `poll_next` may be called.
/// - `finished`: the sequence has ended; every further call returns
///   `Ready(None)`.
/// - `may_emit`: the set of complete item sequences the source may
///   still emit.  Polling can only narrow this set, item by item.
pub trait StreamSource: Sized {
    type Item;

    /// May `poll_next` be called on this source?
    spec fn pollable(&self) -> bool;

    /// Has the sequence ended, with further calls defined to return
    /// `Ready(None)` forever?
    spec fn finished(&self) -> bool;

    /// May this source emit exactly the remaining item sequence `s`?
    spec fn may_emit(&self, s: Seq<Self::Item>) -> bool;

    /// Produce the next item, if any.
    fn poll_next(&mut self) -> (r: Poll<Option<Self::Item>>)
        requires
            old(self).pollable(),
        ensures
            old(self).finished() ==> r == Poll::Ready(None::<Self::Item>),
            final(self).pollable(),
            r is Pending ==> forall|s: Seq<Self::Item>|
                final(self).may_emit(s) ==> old(self).may_emit(s),
            r == Poll::Ready(None::<Self::Item>) ==> {
                &&& old(self).may_emit(Seq::empty())
                &&& final(self).finished()
            },
            forall|v: Self::Item| r == Poll::Ready(Some(v)) ==> {
                &&& !old(self).finished()
                &&& exists|s: Seq<Self::Item>| old(self).may_emit(seq![v] + s)
                &&& forall|s: Seq<Self::Item>|
                    final(self).may_emit(s) ==> old(self).may_emit(seq![v] + s)
            },
    ;
}

} // verus!
