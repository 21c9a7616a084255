//! The polling contract every combinator implements and consumes.

use vstd::prelude::*;

verus! {

/// The outcome of one poll: either the computation has not produced its
/// result yet, or it is ready with a final value.
#[derive(Debug, PartialEq, Eq)]
pub enum Poll<T> {
    Pending,
    Ready(T),
}

/// A unit of asynchronous computation: a value that is advanced by
/// repeated `poll` calls and eventually produces a result.
///
/// Three specification views describe a computation:
/// - `pollable`: whether `poll` may be called at all.  Ordinary
///   computations stop being pollable once they have delivered their
///   value; polling past that point is a caller error.
/// - `done`: the computation has already delivered its value and has
///   opted into graceful post-completion behaviour: every further poll
///   returns `Pending` and never re-delivers the value.
/// - `may_produce`: the set of values the computation may still ready
///   with.  Polling can only narrow this set, so any value observed at
///   readiness was a possible value from the start.
pub trait Computation: Sized {
    type Output;

    /// May `poll` be called on this computation?
    spec fn pollable(&self) -> bool;

    /// Has this computation delivered its value, with further polls
    /// defined to return `Pending` forever?
    spec fn done(&self) -> bool;

    /// May this computation ready with the value `v`?
    spec fn may_produce(&self, v: Self::Output) -> bool;

    /// Advance the computation one step.  A real driver supplies a
    /// wake-registration handle alongside this call; wakeup delivery is
    /// the driver's concern and carries no obligation stated here.
    fn poll(&mut self) -> (r: Poll<Self::Output>)
        requires
            old(self).pollable(),
        ensures
            old(self).done() ==> r is Pending,
            r is Pending ==> {
                &&& final(self).pollable()
                &&& old(self).done() ==> final(self).done()
                &&& forall|v: Self::Output|
                    final(self).may_produce(v) ==> old(self).may_produce(v)
            },
            r is Ready ==> {
                &&& !old(self).done()
                &&& old(self).may_produce(r->0)
                &&& final(self).pollable() ==> final(self).done()
            },
    ;
}

} // verus!
