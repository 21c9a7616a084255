//! Convert the result of a computation into a target type.

use core::marker::PhantomData;
use vstd::prelude::*;

use crate::computation::Computation;
use crate::computation::Poll;

verus! {

/// Specialises [`crate::Mapped`] to the conversion implied by the
/// target type: readies with `U::from` applied to the inner result.
/// Polling again after that is a caller error.
pub enum MapInto<Fut, U> {
    Active { fut: Fut, u: PhantomData<U> },
    Complete,
}

impl<Fut: Computation, U: From<Fut::Output>> MapInto<Fut, U> {
    pub fn new(fut: Fut) -> (r: Self)
        ensures
            r == (MapInto::<Fut, U>::Active { fut, u: PhantomData }),
    {
        MapInto::Active { fut, u: PhantomData }
    }
}

impl<Fut: Computation, U: From<Fut::Output>> Computation for MapInto<Fut, U> {
    type Output = U;

    open spec fn pollable(&self) -> bool {
        match self {
            MapInto::Active { fut, u: _ } => fut.pollable(),
            MapInto::Complete => false,
        }
    }

    open spec fn done(&self) -> bool {
        false
    }

    /// The possible results are the conversion's possible outputs on
    /// the inner computation's possible results.
    open spec fn may_produce(&self, u: U) -> bool {
        match self {
            MapInto::Active { fut, u: _ } => exists|v: Fut::Output|
                fut.may_produce(v) && call_ensures(U::from, (v,), u),
            MapInto::Complete => false,
        }
    }

    fn poll(&mut self) -> (r: Poll<U>) {
        match self {
            MapInto::Active { fut, u: _ } => {
                match fut.poll() {
                    Poll::Pending => Poll::Pending,
                    Poll::Ready(v) => {
                        let u: U = v.into();
                        *self = MapInto::Complete;
                        Poll::Ready(u)
                    },
                }
            },
            MapInto::Complete => vstd::pervasive::unreached(),
        }
    }
}

} // verus!
