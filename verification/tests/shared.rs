use std::cell::Cell;
use std::rc::Rc;

use poll_combinators::{Computation, ComputationExt, Delayed, Immediate, Poll};

#[test]
fn test_shared() {
    let mut f1 = Immediate::new(42).shared();
    let mut f2 = f1.clone();
    let mut f3 = f2.clone();
    let v1 = loop {
        match f1.poll() {
            Poll::Pending => {}
            Poll::Ready(v) => break v,
        }
    };
    assert_eq!(v1, 42);
    let v2 = loop {
        match f2.poll() {
            Poll::Pending => {}
            Poll::Ready(v) => break v,
        }
    };
    assert_eq!(v2, 42);
    let v3 = loop {
        match f3.poll() {
            Poll::Pending => {}
            Poll::Ready(v) => break v,
        }
    };
    assert_eq!(v3, 42);
}

#[test]
fn test_shared_runs_inner_once() {
    let count = Rc::new(Cell::new(0));
    let c2 = count.clone();
    let inner = Immediate::new(42).map(move |x: i32| {
        c2.set(c2.get() + 1);
        x
    });
    let mut h0 = inner.shared();
    let mut h1 = h0.clone();
    let mut h2 = h0.clone();
    let mut h3 = h0.clone();
    let mut results = Vec::new();
    results.push(loop {
        match h0.poll() {
            Poll::Pending => {}
            Poll::Ready(v) => break v,
        }
    });
    results.push(loop {
        match h1.poll() {
            Poll::Pending => {}
            Poll::Ready(v) => break v,
        }
    });
    results.push(loop {
        match h2.poll() {
            Poll::Pending => {}
            Poll::Ready(v) => break v,
        }
    });
    results.push(loop {
        match h3.poll() {
            Poll::Pending => {}
            Poll::Ready(v) => break v,
        }
    });
    assert_eq!(results, vec![42, 42, 42, 42]);
    assert_eq!(count.get(), 1);
}

#[test]
fn test_shared_clone_after_completion() {
    let count = Rc::new(Cell::new(0));
    let c2 = count.clone();
    let inner = Immediate::new(42).map(move |x: i32| {
        c2.set(c2.get() + 1);
        x
    });
    let mut f1 = inner.shared();
    assert_eq!(f1.poll(), Poll::Ready(42));
    let mut f2 = f1.clone();
    assert_eq!(f2.poll(), Poll::Ready(42));
    assert_eq!(count.get(), 1);
}

#[test]
fn test_shared_interleaved() {
    let count = Rc::new(Cell::new(0));
    let c2 = count.clone();
    let inner = Delayed::new(2, 42).map(move |x: i32| {
        c2.set(c2.get() + 1);
        x
    });
    let mut h1 = inner.shared();
    let mut h2 = h1.clone();
    assert_eq!(h1.poll(), Poll::Pending);
    assert_eq!(h2.poll(), Poll::Pending);
    assert_eq!(h1.poll(), Poll::Ready(42));
    assert_eq!(h2.poll(), Poll::Ready(42));
    assert_eq!(count.get(), 1);
}
