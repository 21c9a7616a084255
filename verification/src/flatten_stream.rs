//! Unwrap a computation whose result is a sequence source.

use vstd::prelude::*;

use crate::computation::Computation;
use crate::computation::Poll;
use crate::stream::StreamSource;

verus! {

/// Wraps a computation whose result is a sequence source; once the
/// computation readies, every call delegates to the source it
/// produced.
#[allow(inconsistent_fields)]
pub enum FlattenStream<Fut: Computation> where Fut::Output: StreamSource {
    Fut { fut: Fut },
    StreamFut { s: Fut::Output },
}

impl<Fut: Computation> FlattenStream<Fut> where Fut::Output: StreamSource {
    pub fn new(fut: Fut) -> (r: Self)
        ensures
            r == (FlattenStream::Fut { fut }),
    {
        FlattenStream::Fut { fut }
    }
}

impl<Fut: Computation> StreamSource for FlattenStream<Fut> where Fut::Output: StreamSource {
    type Item = <Fut::Output as StreamSource>::Item;

    /// Pollable while every source the computation may produce is
    /// itself pollable.
    open spec fn pollable(&self) -> bool {
        match self {
            FlattenStream::Fut { fut } => {
                &&& fut.pollable()
                &&& forall|st: Fut::Output| fut.may_produce(st) ==> st.pollable()
            },
            FlattenStream::StreamFut { s } => s.pollable(),
        }
    }

    open spec fn finished(&self) -> bool {
        match self {
            FlattenStream::Fut { fut: _ } => false,
            FlattenStream::StreamFut { s } => s.finished(),
        }
    }

    /// Emits whatever any source the computation may produce would.
    open spec fn may_emit(&self, q: Seq<Self::Item>) -> bool {
        match self {
            FlattenStream::Fut { fut } => exists|st: Fut::Output|
                #[trigger] fut.may_produce(st) && st.may_emit(q),
            FlattenStream::StreamFut { s } => s.may_emit(q),
        }
    }

    fn poll_next(&mut self) -> (r: Poll<Option<Self::Item>>) {
        match self {
            FlattenStream::Fut { fut } => {
                match fut.poll() {
                    Poll::Pending => Poll::Pending,
                    Poll::Ready(mut st) => {
                        let r = st.poll_next();
                        *self = FlattenStream::StreamFut { s: st };
                        r
                    },
                }
            },
            FlattenStream::StreamFut { s } => s.poll_next(),
        }
    }
}

} // verus!
