//! Branch selection between two differently-typed computations that
//! share an output type.

use vstd::prelude::*;

use crate::computation::Computation;
use crate::computation::Poll;

verus! {

/// A two-variant union selecting between two computations with the same
/// output type, so conditional code can produce one concrete type from
/// two structurally different branches.  Polling delegates to whichever
/// branch was chosen at construction.
#[allow(inconsistent_fields)]
pub enum Either<L, R> {
    Left { fut: L },
    Right { fut: R },
}

impl<L: Computation, R: Computation<Output = L::Output>> Either<L, R> {
    /// Select the left branch.
    pub fn left(fut: L) -> (r: Self)
        ensures
            r == (Either::<L, R>::Left { fut }),
    {
        Either::Left { fut }
    }

    /// Select the right branch.
    pub fn right(fut: R) -> (r: Self)
        ensures
            r == (Either::<L, R>::Right { fut }),
    {
        Either::Right { fut }
    }
}

impl<L: Computation, R: Computation<Output = L::Output>> Computation for Either<L, R> {
    type Output = L::Output;

    open spec fn pollable(&self) -> bool {
        match self {
            Either::Left { fut } => fut.pollable(),
            Either::Right { fut } => fut.pollable(),
        }
    }

    open spec fn done(&self) -> bool {
        match self {
            Either::Left { fut } => fut.done(),
            Either::Right { fut } => fut.done(),
        }
    }

    open spec fn may_produce(&self, v: L::Output) -> bool {
        match self {
            Either::Left { fut } => fut.may_produce(v),
            Either::Right { fut } => fut.may_produce(v),
        }
    }

    fn poll(&mut self) -> (r: Poll<L::Output>)
        ensures
            ((*old(self)) is Left) == ((*final(self)) is Left),
    {
        match self {
            Either::Left { fut } => fut.poll(),
            Either::Right { fut } => fut.poll(),
        }
    }
}

} // verus!
