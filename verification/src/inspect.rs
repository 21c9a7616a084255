//! Observe a computation's result without changing it.

use vstd::prelude::*;

use crate::computation::Computation;
use crate::computation::Poll;

verus! {

/// Wraps an inner computation and a single-use callback; on readiness
/// the callback sees a reference to the result, and the original value
/// is delivered unchanged.
pub struct Inspect<Fut, F> {
    fut: Fut,
    f: Option<F>,
}

impl<Fut: Computation, F: FnOnce(&Fut::Output)> Inspect<Fut, F> {
    pub fn new(fut: Fut, f: F) -> (r: Self)
        ensures
            r.pollable() <==> (fut.pollable() && forall|v: Fut::Output|
                fut.may_produce(v) ==> call_requires(f, (&v,))),
            r.done() == fut.done(),
            forall|v: Fut::Output| r.may_produce(v) <==> fut.may_produce(v),
    {
        Inspect { fut, f: Some(f) }
    }
}

impl<Fut: Computation, F: FnOnce(&Fut::Output)> Computation for Inspect<Fut, F> {
    type Output = Fut::Output;

    closed spec fn pollable(&self) -> bool {
        &&& self.fut.pollable()
        &&& self.f is Some
        &&& forall|v: Fut::Output|
            self.fut.may_produce(v) ==> call_requires(self.f.unwrap(), (&v,))
    }

    closed spec fn done(&self) -> bool {
        self.fut.done()
    }

    /// The callback runs for its side effect only: the possible results
    /// are exactly the inner computation's.
    closed spec fn may_produce(&self, v: Fut::Output) -> bool {
        self.fut.may_produce(v)
    }

    fn poll(&mut self) -> (r: Poll<Fut::Output>) {
        match self.fut.poll() {
            Poll::Pending => Poll::Pending,
            Poll::Ready(v) => {
                let g = self.f.take().unwrap();
                g(&v);
                Poll::Ready(v)
            },
        }
    }
}

} // verus!
