//! Unwrap a computation whose result is itself a computation.

use vstd::prelude::*;

use crate::computation::Computation;
use crate::computation::Poll;

verus! {

/// Wraps a computation whose own result is another computation; when
/// the outer layer readies, the unwrapped payload is polled at once in
/// the same call, and every later poll delegates to it.
#[allow(inconsistent_fields)]
pub enum Flatten<Fut: Computation> where Fut::Output: Computation {
    First { fut: Fut },
    Last { fut: Fut::Output },
}

impl<Fut: Computation> Flatten<Fut> where Fut::Output: Computation {
    pub fn new(fut: Fut) -> (r: Self)
        ensures
            r == (Flatten::First { fut }),
    {
        Flatten::First { fut }
    }
}

impl<Fut: Computation> Computation for Flatten<Fut> where Fut::Output: Computation {
    type Output = <Fut::Output as Computation>::Output;

    /// Pollable while every inner computation the outer layer may
    /// produce is itself pollable.
    open spec fn pollable(&self) -> bool {
        match self {
            Flatten::First { fut } => {
                &&& fut.pollable()
                &&& forall|c: Fut::Output| fut.may_produce(c) ==> c.pollable()
            },
            Flatten::Last { fut } => fut.pollable(),
        }
    }

    open spec fn done(&self) -> bool {
        match self {
            Flatten::First { fut } => fut.done(),
            Flatten::Last { fut } => fut.done(),
        }
    }

    /// The possible results are those of any computation the outer
    /// layer may produce.
    open spec fn may_produce(&self, w: <Fut::Output as Computation>::Output) -> bool {
        match self {
            Flatten::First { fut } => exists|c: Fut::Output|
                #[trigger] fut.may_produce(c) && c.may_produce(w),
            Flatten::Last { fut } => fut.may_produce(w),
        }
    }

    fn poll(&mut self) -> (r: Poll<<Fut::Output as Computation>::Output>) {
        match self {
            Flatten::First { fut } => {
                match fut.poll() {
                    Poll::Pending => Poll::Pending,
                    Poll::Ready(mut c) => {
                        let r = c.poll();
                        *self = Flatten::Last { fut: c };
                        r
                    },
                }
            },
            Flatten::Last { fut } => fut.poll(),
        }
    }
}

} // verus!
