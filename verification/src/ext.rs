//! The fluent composition surface: chainable constructors so any
//! computation can be wrapped by any combinator without naming the
//! combinator's concrete type.  Wrapping only affects how a pipeline
//! is written; each method builds exactly the state machine its
//! combinator's constructor does.

use vstd::prelude::*;

use crate::computation::Computation;
use crate::either::Either;
use crate::flatten::Flatten;
use crate::flatten_stream::FlattenStream;
use crate::fuse::Fuse;
use crate::inspect::Inspect;
use crate::into_stream::IntoStream;
use crate::map::Mapped;
use crate::map_into::MapInto;
use crate::shared::clones_of;
use crate::shared::Shared;
use crate::stream::StreamSource;
use crate::then::Then;

verus! {

/// Chainable wrapping, available on every computation.
pub trait ComputationExt: Computation {
    /// Transform the eventual result with a single-use function.
    fn map<U, F: FnOnce(Self::Output) -> U>(self, f: F) -> (r: Mapped<Self, F>)
        ensures
            r == (Mapped::Incomplete { fut: self, f: Some(f) }),
    {
        Mapped::new(self, f)
    }

    /// Convert the eventual result into the target type.
    fn map_into<U: From<Self::Output>>(self) -> (r: MapInto<Self, U>)
        ensures
            r == (MapInto::<Self, U>::Active { fut: self, u: core::marker::PhantomData }),
    {
        MapInto::new(self)
    }

    /// Sequence with a continuation built from the eventual result.
    fn then<U: Computation, F: FnOnce(Self::Output) -> U>(self, f: F) -> (r: Then<Self, F, U>)
        ensures
            r == (Then::<Self, F, U>::Start { fut: self, f: Some(f) }),
    {
        Then::new(self, f)
    }

    /// Select this computation as the left branch.
    fn left_future<B: Computation<Output = Self::Output>>(self) -> (r: Either<Self, B>)
        ensures
            r == (Either::<Self, B>::Left { fut: self }),
    {
        Either::left(self)
    }

    /// Select this computation as the right branch.
    fn right_future<A: Computation<Output = Self::Output>>(self) -> (r: Either<A, Self>)
        ensures
            r == (Either::<A, Self>::Right { fut: self }),
    {
        Either::right(self)
    }

    /// Adapt into a source that yields the one result, then ends.
    fn into_stream(self) -> (r: IntoStream<Self>)
        ensures
            r == (IntoStream::Active { fut: self }),
    {
        IntoStream::new(self)
    }

    /// Unwrap a computation whose result is itself a computation.
    fn flatten(self) -> (r: Flatten<Self>) where Self::Output: Computation
        ensures
            r == (Flatten::First { fut: self }),
    {
        Flatten::new(self)
    }

    /// Unwrap a computation whose result is a sequence source.
    fn flatten_stream(self) -> (r: FlattenStream<Self>) where Self::Output: StreamSource
        ensures
            r == (FlattenStream::Fut { fut: self }),
    {
        FlattenStream::new(self)
    }

    /// Make polling past completion return `Pending` forever.
    fn fuse(self) -> (r: Fuse<Self>)
        ensures
            r == (Fuse::First { fut: self }),
    {
        Fuse::new(self)
    }

    /// Observe the eventual result without changing it.
    fn inspect<F: FnOnce(&Self::Output)>(self, f: F) -> (r: Inspect<Self, F>)
        ensures
            r.pollable() <==> (self.pollable() && forall|v: Self::Output|
                self.may_produce(v) ==> call_requires(f, (&v,))),
            r.done() == self.done(),
            forall|v: Self::Output| r.may_produce(v) <==> self.may_produce(v),
    {
        Inspect::new(self, f)
    }

    /// Share the one result among cloneable handles, driving the
    /// underlying computation at most once.
    fn shared(self) -> (r: Shared<Self>) where Self::Output: Clone
        requires
            self.pollable(),
        ensures
            r.wf(),
            r.pollable(),
            !r.done(),
            forall|v: Self::Output| r.observable(v) == clones_of(self, v),
            forall|v: Self::Output| r.may_produce(v) == r.observable(v),
    {
        Shared::new(self)
    }
}

impl<T: Computation> ComputationExt for T {
}

} // verus!
