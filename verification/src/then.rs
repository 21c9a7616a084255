//! Sequence a computation with a continuation that produces another.

use vstd::prelude::*;

use crate::computation::Computation;
use crate::computation::Poll;

verus! {

/// Wraps an inner computation and a single-use function producing a
/// continuation computation from its result.  When the inner readies,
/// the continuation is built and polled at once in the same call, so no
/// wakeup round trip is spent when it can already make progress.
#[allow(inconsistent_fields)]
pub enum Then<Fut, F, U> {
    Start { fut: Fut, f: Option<F> },
    Waiting { fut: U },
}

impl<Fut: Computation, U: Computation, F: FnOnce(Fut::Output) -> U> Then<Fut, F, U> {
    pub fn new(fut: Fut, f: F) -> (r: Self)
        ensures
            r == (Then::<Fut, F, U>::Start { fut, f: Some(f) }),
    {
        Then::Start { fut, f: Some(f) }
    }
}

impl<Fut: Computation, U: Computation, F: FnOnce(Fut::Output) -> U> Computation
    for Then<Fut, F, U> {
    type Output = U::Output;

    /// Pollable while the continuation function is owed a value and
    /// every continuation it may build is itself pollable.
    open spec fn pollable(&self) -> bool {
        match self {
            Then::Start { fut, f } => {
                &&& fut.pollable()
                &&& f is Some
                &&& forall|v: Fut::Output|
                    fut.may_produce(v) ==> call_requires(f.unwrap(), (v,))
                &&& forall|v: Fut::Output, c: U|
                    fut.may_produce(v) && #[trigger] call_ensures(f.unwrap(), (v,), c)
                        ==> c.pollable()
            },
            Then::Waiting { fut } => fut.pollable(),
        }
    }

    open spec fn done(&self) -> bool {
        match self {
            Then::Start { fut, f: _ } => fut.done(),
            Then::Waiting { fut } => fut.done(),
        }
    }

    /// The possible results are those of any continuation the function
    /// may build from any possible inner result.
    open spec fn may_produce(&self, w: U::Output) -> bool {
        match self {
            Then::Start { fut, f } => exists|v: Fut::Output, c: U|
                fut.may_produce(v) && #[trigger] call_ensures(f.unwrap(), (v,), c)
                    && c.may_produce(w),
            Then::Waiting { fut } => fut.may_produce(w),
        }
    }

    fn poll(&mut self) -> (r: Poll<U::Output>) {
        match self {
            Then::Start { fut, f } => {
                match fut.poll() {
                    Poll::Pending => Poll::Pending,
                    Poll::Ready(v) => {
                        let g = f.take().unwrap();
                        let mut c = g(v);
                        let r = c.poll();
                        *self = Then::Waiting { fut: c };
                        r
                    },
                }
            },
            Then::Waiting { fut } => fut.poll(),
        }
    }
}

} // verus!
