//! Adapt a computation into a one-item sequence.

use vstd::prelude::*;

use crate::computation::Computation;
use crate::computation::Poll;
use crate::stream::StreamSource;

verus! {

/// Adapts a computation into a source that yields exactly the one
/// value the computation readies with and then ends.
pub enum IntoStream<Fut> {
    Active { fut: Fut },
    Inactive,
}

impl<Fut: Computation> IntoStream<Fut> {
    pub fn new(fut: Fut) -> (r: Self)
        ensures
            r == (IntoStream::Active { fut }),
    {
        IntoStream::Active { fut }
    }
}

impl<Fut: Computation> StreamSource for IntoStream<Fut> {
    type Item = Fut::Output;

    open spec fn pollable(&self) -> bool {
        match self {
            IntoStream::Active { fut } => fut.pollable(),
            IntoStream::Inactive => true,
        }
    }

    open spec fn finished(&self) -> bool {
        match self {
            IntoStream::Active { fut: _ } => false,
            IntoStream::Inactive => true,
        }
    }

    /// Emits exactly one possible result of the computation, then ends.
    open spec fn may_emit(&self, s: Seq<Fut::Output>) -> bool {
        match self {
            IntoStream::Active { fut } => s.len() == 1 && fut.may_produce(s[0]),
            IntoStream::Inactive => s == Seq::<Fut::Output>::empty(),
        }
    }

    fn poll_next(&mut self) -> (r: Poll<Option<Fut::Output>>)
        ensures
            r is Ready && r->0 is Some ==> final(self).finished(),
    {
        match self {
            IntoStream::Active { fut } => {
                match fut.poll() {
                    Poll::Pending => Poll::Pending,
                    Poll::Ready(v) => {
                        *self = IntoStream::Inactive;
                        proof {
                            assert(seq![v] + Seq::<Fut::Output>::empty() =~= seq![v]);
                            assert(old(self).may_emit(seq![v] + Seq::<Fut::Output>::empty()));
                        }
                        Poll::Ready(Some(v))
                    },
                }
            },
            IntoStream::Inactive => Poll::Ready(None),
        }
    }
}

} // verus!
