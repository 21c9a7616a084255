//! Transform the result of a computation with a single-use function.

use vstd::prelude::*;

use crate::computation::Computation;
use crate::computation::Poll;

verus! {

/// Does mapping `f` over a computation in the state `fut` possibly
/// produce `u`?  Exactly when `f` may turn some possible result of
/// `fut` into `u`.
pub open spec fn mapped_produces<Fut: Computation, U, F: FnOnce(Fut::Output) -> U>(
    fut: Fut,
    f: F,
    u: U,
) -> bool {
    exists|v: Fut::Output| #[trigger] fut.may_produce(v) && call_ensures(f, (v,), u)
}

/// Wraps an inner computation and a single-use transform; readies with
/// the transform applied to the inner result.  Polling again after the
/// transformed value has been delivered is a caller error.
pub enum Mapped<Fut, F> {
    Incomplete { fut: Fut, f: Option<F> },
    Complete,
}

impl<Fut: Computation, U, F: FnOnce(Fut::Output) -> U> Mapped<Fut, F> {
    pub fn new(fut: Fut, f: F) -> (r: Self)
        ensures
            r == (Mapped::Incomplete { fut, f: Some(f) }),
    {
        Mapped::Incomplete { fut, f: Some(f) }
    }
}

impl<Fut: Computation, U, F: FnOnce(Fut::Output) -> U> Computation for Mapped<Fut, F> {
    type Output = U;

    /// Pollable while the transform is still owed a value the inner
    /// computation may produce.
    open spec fn pollable(&self) -> bool {
        match self {
            Mapped::Incomplete { fut, f } => {
                &&& fut.pollable()
                &&& f matches Some(g) && forall|v: Fut::Output|
                    fut.may_produce(v) ==> call_requires(*g, (v,))
            },
            Mapped::Complete => false,
        }
    }

    /// A completed `Mapped` rejects further polls rather than absorbing
    /// them, so it is never `done`.
    open spec fn done(&self) -> bool {
        false
    }

    /// The possible results are the transform's possible outputs on the
    /// inner computation's possible results.
    open spec fn may_produce(&self, u: U) -> bool {
        match self {
            Mapped::Incomplete { fut, f } => f matches Some(g) && mapped_produces(*fut, *g, u),
            Mapped::Complete => false,
        }
    }

    fn poll(&mut self) -> (r: Poll<U>) {
        match self {
            Mapped::Incomplete { fut, f } => {
                match fut.poll() {
                    Poll::Pending => Poll::Pending,
                    Poll::Ready(v) => {
                        let g = f.take().unwrap();
                        let u = g(v);
                        *self = Mapped::Complete;
                        Poll::Ready(u)
                    },
                }
            },
            Mapped::Complete => vstd::pervasive::unreached(),
        }
    }
}

} // verus!
