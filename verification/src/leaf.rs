//! Leaves that combinators wrap: a computation that is ready at once,
//! one that stays pending for a set number of polls, and a source that
//! emits a fixed sequence of items.

use vstd::prelude::*;

use crate::computation::Computation;
use crate::computation::Poll;
use crate::stream::StreamSource;

verus! {

/// A computation that readies with a fixed value on its first poll.
pub struct Immediate<T> {
    val: Option<T>,
}

impl<T> Immediate<T> {
    pub fn new(v: T) -> (r: Self)
        ensures
            r.pollable(),
            !r.done(),
            forall|u: T| r.may_produce(u) <==> u == v,
    {
        Immediate { val: Some(v) }
    }
}

impl<T> Computation for Immediate<T> {
    type Output = T;

    closed spec fn pollable(&self) -> bool {
        self.val is Some
    }

    closed spec fn done(&self) -> bool {
        false
    }

    closed spec fn may_produce(&self, v: T) -> bool {
        self.val == Some(v)
    }

    fn poll(&mut self) -> (r: Poll<T>)
        ensures
            r is Ready,
    {
        let v = self.val.take().unwrap();
        Poll::Ready(v)
    }
}

/// A computation that returns `Pending` for a set number of polls and
/// then readies with a fixed value, standing in for work that an
/// external event completes later.
pub struct Delayed<T> {
    remaining: u64,
    val: Option<T>,
}

impl<T> Delayed<T> {
    pub fn new(polls_until_ready: u64, v: T) -> (r: Self)
        ensures
            r.pollable(),
            !r.done(),
            r.polls_left() == polls_until_ready,
            forall|u: T| r.may_produce(u) <==> u == v,
    {
        Delayed { remaining: polls_until_ready, val: Some(v) }
    }

    /// How many more polls return `Pending` before the value is
    /// delivered.
    pub closed spec fn polls_left(&self) -> u64 {
        self.remaining
    }
}

impl<T> Computation for Delayed<T> {
    type Output = T;

    closed spec fn pollable(&self) -> bool {
        self.val is Some
    }

    closed spec fn done(&self) -> bool {
        false
    }

    closed spec fn may_produce(&self, v: T) -> bool {
        self.val == Some(v)
    }

    fn poll(&mut self) -> (r: Poll<T>)
        ensures
            r is Ready <==> old(self).polls_left() == 0,
            r is Pending ==> final(self).polls_left() == old(self).polls_left() - 1,
    {
        if self.remaining > 0 {
            self.remaining = self.remaining - 1;
            Poll::Pending
        } else {
            let v = self.val.take().unwrap();
            Poll::Ready(v)
        }
    }
}

/// A source that emits a fixed sequence of items in order, then ends.
pub struct Items<T> {
    items: Vec<T>,
}

impl<T> Items<T> {
    pub fn new(items: Vec<T>) -> (r: Self)
        ensures
            r.pollable(),
            r.finished() <==> items@.len() == 0,
            forall|s: Seq<T>| r.may_emit(s) <==> s == items@,
    {
        Items { items }
    }
}

impl<T> StreamSource for Items<T> {
    type Item = T;

    closed spec fn pollable(&self) -> bool {
        true
    }

    closed spec fn finished(&self) -> bool {
        self.items@.len() == 0
    }

    closed spec fn may_emit(&self, s: Seq<T>) -> bool {
        s == self.items@
    }

    fn poll_next(&mut self) -> (r: Poll<Option<T>>)
        ensures
            !(r is Pending),
    {
        if self.items.len() == 0 {
            proof {
                assert(self.items@ =~= Seq::<T>::empty());
            }
            Poll::Ready(None)
        } else {
            let ghost before = self.items@;
            let v = self.items.remove(0);
            proof {
                assert(before =~= seq![v] + self.items@);
            }
            Poll::Ready(Some(v))
        }
    }
}

} // verus!
