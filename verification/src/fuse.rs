//! The one combinator explicitly safe to poll past completion.

use vstd::prelude::*;

use crate::computation::Computation;
use crate::computation::Poll;

verus! {

/// Wraps a computation so that, once it has readied, every further poll
/// returns `Pending` forever: the value is never handed out twice and
/// polling past completion never aborts.
pub enum Fuse<Fut> {
    First { fut: Fut },
    Done,
}

impl<Fut: Computation> Fuse<Fut> {
    pub fn new(fut: Fut) -> (r: Self)
        ensures
            r == (Fuse::First { fut }),
    {
        Fuse::First { fut }
    }
}

impl<Fut: Computation> Computation for Fuse<Fut> {
    type Output = Fut::Output;

    /// A fused computation stays pollable forever.
    open spec fn pollable(&self) -> bool {
        match self {
            Fuse::First { fut } => fut.pollable(),
            Fuse::Done => true,
        }
    }

    /// Done once the wrapped value has been delivered (or the inner
    /// computation has itself absorbed its completion).
    open spec fn done(&self) -> bool {
        match self {
            Fuse::First { fut } => fut.done(),
            Fuse::Done => true,
        }
    }

    open spec fn may_produce(&self, v: Fut::Output) -> bool {
        match self {
            Fuse::First { fut } => fut.may_produce(v),
            Fuse::Done => false,
        }
    }

    fn poll(&mut self) -> (r: Poll<Fut::Output>)
        ensures
            final(self).pollable(),
            r is Ready ==> final(self).done(),
    {
        match self {
            Fuse::First { fut } => {
                match fut.poll() {
                    Poll::Pending => Poll::Pending,
                    Poll::Ready(v) => {
                        *self = Fuse::Done;
                        Poll::Ready(v)
                    },
                }
            },
            Fuse::Done => Poll::Pending,
        }
    }
}

} // verus!
