use poll_combinators::{Computation, ComputationExt, Delayed, Either, Immediate, Poll};

#[test]
fn test_map() {
    let mut fut = Immediate::new(42).map(|x: i32| x + 1);
    assert_eq!(
        43,
        loop {
            match fut.poll() {
                Poll::Pending => {}
                Poll::Ready(v) => break v,
            }
        }
    );
    let mut fut = Immediate::new(42).map(|x: i32| x + 1).map(|i: i32| i.to_string());
    assert_eq!(
        "43",
        loop {
            match fut.poll() {
                Poll::Pending => {}
                Poll::Ready(v) => break v,
            }
        }
    );
}

#[test]
fn test_map_into() {
    let mut fut = Immediate::new("42").map_into::<String>();
    let val: String = loop {
        match fut.poll() {
            Poll::Pending => {}
            Poll::Ready(v) => break v,
        }
    };
    assert_eq!(val, "42");
}

#[test]
fn test_then() {
    let mut fut = Immediate::new(42).then(move |x: i32| Immediate::new(x + 1));
    let first = loop {
        match fut.poll() {
            Poll::Pending => {}
            Poll::Ready(v) => break v,
        }
    };
    assert_eq!(first, 43);
    let mut fut = Immediate::new(42)
        .then(move |x: i32| Immediate::new(x + 1))
        .then(|x: i32| Immediate::new(x.to_string()));
    let second = loop {
        match fut.poll() {
            Poll::Pending => {}
            Poll::Ready(v) => break v,
        }
    };
    assert_eq!(second, "43");
}

#[test]
fn test_either() {
    let mut fut = if true {
        Immediate::new(42).left_future()
    } else {
        Immediate::new(43).right_future()
    };
    assert_eq!(fut.poll(), Poll::Ready(42));

    let mut fut = if false {
        Immediate::new(42).left_future()
    } else {
        Immediate::new(43).right_future()
    };
    assert_eq!(fut.poll(), Poll::Ready(43));
}

#[test]
fn test_flatten() {
    let mut fut = Immediate::new(Immediate::new(42)).flatten();
    let v = loop {
        match fut.poll() {
            Poll::Pending => {}
            Poll::Ready(v) => break v,
        }
    };
    assert_eq!(v, 42);
}

#[test]
fn test_fuse() {
    let mut fut = Delayed::new(1, 42).fuse();
    assert_eq!(fut.poll(), Poll::Pending);
    assert_eq!(fut.poll(), Poll::Ready(42));
    assert_eq!(fut.poll(), Poll::Pending);
    assert_eq!(fut.poll(), Poll::Pending);
}

#[test]
fn test_fuse_pending_forever() {
    let mut fut = Immediate::new(7).fuse();
    assert_eq!(fut.poll(), Poll::Ready(7));
    for _ in 0..5 {
        assert_eq!(fut.poll(), Poll::Pending);
    }
}

#[test]
fn test_inspect() {
    let mut res = 0;
    let mut fut = Immediate::new(42).inspect(|num: &i32| res = *num);
    let r = fut.poll();
    drop(fut);
    assert_eq!(r, Poll::Ready(42));
    assert_eq!(res, 42);
}

#[test]
fn test_delayed_counts_polls() {
    let mut fut = Delayed::new(2, 5);
    assert_eq!(fut.poll(), Poll::Pending);
    assert_eq!(fut.poll(), Poll::Pending);
    assert_eq!(fut.poll(), Poll::Ready(5));
}

#[test]
fn test_map_map_matches_composed() {
    let mut staged = Immediate::new(42).map(|x: i32| x + 1).map(|y: i32| y * 2);
    let mut composed = Immediate::new(42).map(|x: i32| (x + 1) * 2);
    let a = loop {
        match staged.poll() {
            Poll::Pending => {}
            Poll::Ready(v) => break v,
        }
    };
    let b = loop {
        match composed.poll() {
            Poll::Pending => {}
            Poll::Ready(v) => break v,
        }
    };
    assert_eq!(a, 86);
    assert_eq!(a, b);
}

#[test]
fn test_either_transparent() {
    let mut direct = Immediate::new(7);
    let mut left: Either<Immediate<i32>, Immediate<i32>> = Immediate::new(7).left_future();
    let mut right: Either<Immediate<i32>, Immediate<i32>> = Immediate::new(7).right_future();
    let d = direct.poll();
    assert_eq!(d, Poll::Ready(7));
    assert_eq!(left.poll(), d);
    assert_eq!(right.poll(), d);
}
