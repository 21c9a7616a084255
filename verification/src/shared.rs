//! A memoizing combinator behind cloneable handles: many independent
//! observers, possibly on different threads, drive one underlying
//! computation at most once and each receive a clone of its single
//! result.

use std::sync::Arc;
use vstd::prelude::*;
use vstd::pervasive::cloned;
use vstd::rwlock::RwLock;

use crate::computation::Computation;
use crate::computation::Poll;

verus! {

/// The one heap-allocated block every handle shares: ownership of the
/// inner computation and the cache for its result.  Its invariant,
/// held by the exclusion lock around it: once the cache is populated
/// it holds a possible result of the original computation and the
/// inner computation is never touched again; while it is empty, the
/// inner computation is still pollable and can only produce such a
/// result.
pub struct State<Fut: Computation> {
    fut: Fut,
    val: Option<Fut::Output>,
}

/// What the exclusion lock guards: either the result cache is filled
/// with a possible result of the computation as it was wrapped, or
/// the inner computation is still pollable and every value it may
/// produce is such a result.
spec fn state_inv<Fut: Computation>(origin: Fut, s: State<Fut>) -> bool {
    match s.val {
        Some(w) => origin.may_produce(w),
        None => {
            &&& s.fut.pollable()
            &&& forall|v: Fut::Output| s.fut.may_produce(v) ==> origin.may_produce(v)
        },
    }
}

/// The lock predicate built from the wrapped computation's set of
/// possible results.
spec fn lock_pred<Fut: Computation>(origin: Fut) -> spec_fn(State<Fut>) -> bool {
    |s: State<Fut>| state_inv(origin, s)
}

/// Is `v` a clone of some possible result of the computation
/// `origin`?  The set of values sharing memoizes: every handle can
/// only ever observe such a value.
pub open spec fn clones_of<Fut: Computation>(origin: Fut, v: Fut::Output) -> bool
    where Fut::Output: Clone
{
    exists|w: Fut::Output| #[trigger] origin.may_produce(w) && cloned(w, v)
}

/// A handle is `Initial` until its own completing poll and `Done`
/// afterwards; either way it keeps its reference to the shared block,
/// so a clone taken at any time is a fresh `Initial` handle on the
/// same underlying computation.
#[verifier::reject_recursive_types(Fut)]
enum Inner<Fut: Computation> {
    Initial {
        state: Arc<RwLock<State<Fut>, spec_fn(State<Fut>) -> bool>>,
        origin: Ghost<Fut>,
    },
    Done {
        state: Arc<RwLock<State<Fut>, spec_fn(State<Fut>) -> bool>>,
        origin: Ghost<Fut>,
    },
}

/// A cloneable handle on a memoized computation.  Each handle readies
/// at most once, with a clone of the one result the underlying
/// computation produced; polling a handle past its own completion is a
/// caller error, but a fresh clone — taken before or after this
/// handle completed — can still observe the cached result.
#[verifier::reject_recursive_types(Fut)]
pub struct Shared<Fut: Computation> where Fut::Output: Clone {
    inner: Inner<Fut>,
}

impl<Fut: Computation> Shared<Fut> where Fut::Output: Clone {
    /// The lock this handle shares guards exactly the possible results
    /// of the computation it was built over.  Every handle the library
    /// hands out is well formed, and polling and cloning keep it so.
    pub closed spec fn wf(&self) -> bool {
        match self.inner {
            Inner::Initial { state, origin } => state.pred() == lock_pred::<Fut>(origin@),
            Inner::Done { state, origin } => state.pred() == lock_pred::<Fut>(origin@),
        }
    }

    /// May a handle on this shared computation observe the value `v`?
    /// Exactly the clones of the underlying computation's possible
    /// results, the same set for every handle and unchanged by polling.
    pub closed spec fn observable(&self, v: Fut::Output) -> bool {
        match self.inner {
            Inner::Initial { state: _, origin } => clones_of(origin@, v),
            Inner::Done { state: _, origin } => clones_of(origin@, v),
        }
    }

    pub fn new(fut: Fut) -> (r: Self)
        requires
            fut.pollable(),
        ensures
            r.wf(),
            r.pollable(),
            !r.done(),
            forall|v: Fut::Output| r.observable(v) == clones_of(fut, v),
            forall|v: Fut::Output| r.may_produce(v) == r.observable(v),
    {
        let ghost origin = fut;
        let st = State { fut, val: None };
        let lock = RwLock::new(st, Ghost(lock_pred(origin)));
        Shared { inner: Inner::Initial { state: Arc::new(lock), origin: Ghost(origin) } }
    }

    /// A fresh handle on the same underlying computation: independent
    /// of this one, pollable even when this handle has already
    /// completed, and able to observe the same single result.
    pub fn clone(&self) -> (r: Self)
        ensures
            !r.done(),
            r.wf() == self.wf(),
            r.pollable() == self.wf(),
            forall|v: Fut::Output| r.observable(v) == self.observable(v),
            forall|v: Fut::Output| r.may_produce(v) == self.observable(v),
    {
        match &self.inner {
            Inner::Initial { state, origin } => Shared {
                inner: Inner::Initial { state: state.clone(), origin: *origin },
            },
            Inner::Done { state, origin } => Shared {
                inner: Inner::Initial { state: state.clone(), origin: *origin },
            },
        }
    }
}

impl<Fut: Computation> Computation for Shared<Fut> where Fut::Output: Clone {
    type Output = Fut::Output;

    closed spec fn pollable(&self) -> bool {
        self.wf() && self.inner is Initial
    }

    /// A handle that has delivered its value rejects further polls
    /// rather than absorbing them, so it is never `done`.
    closed spec fn done(&self) -> bool {
        false
    }

    /// This handle delivers only values any handle may observe, and
    /// nothing once it has completed.
    closed spec fn may_produce(&self, v: Fut::Output) -> bool {
        self.inner is Initial && self.observable(v)
    }

    fn poll(&mut self) -> (r: Poll<Fut::Output>)
        ensures
            final(self).wf(),
            forall|v: Fut::Output| final(self).observable(v) == old(self).observable(v),
            r is Ready ==> !final(self).pollable(),
    {
        let (state, origin) = match &self.inner {
            Inner::Initial { state, origin } => (state.clone(), *origin),
            Inner::Done { .. } => vstd::pervasive::unreached(),
        };
        let (mut st, handle) = state.acquire_write();
        if st.val.is_some() {
            let ghost w0 = st.val.unwrap();
            let v = st.val.as_ref().unwrap().clone();
            proof {
                assert(origin@.may_produce(w0) && cloned::<Fut::Output>(w0, v));
            }
            handle.release_write(st);
            self.inner = Inner::Done { state, origin };
            Poll::Ready(v)
        } else {
            match st.fut.poll() {
                Poll::Pending => {
                    handle.release_write(st);
                    Poll::Pending
                },
                Poll::Ready(v) => {
                    let c = v.clone();
                    proof {
                        assert(origin@.may_produce(v) && cloned::<Fut::Output>(v, c));
                    }
                    st.val = Some(v);
                    handle.release_write(st);
                    self.inner = Inner::Done { state, origin };
                    Poll::Ready(c)
                },
            }
        }
    }
}

} // verus!
