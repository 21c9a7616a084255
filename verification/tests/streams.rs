use poll_combinators::{ComputationExt, Immediate, Items, Poll, StreamSource};

#[test]
fn test_into_stream() {
    let mut s = Immediate::new(42).into_stream();
    let mut v = Vec::new();
    loop {
        match s.poll_next() {
            Poll::Pending => {}
            Poll::Ready(Some(item)) => v.push(item),
            Poll::Ready(None) => break,
        }
    }
    assert_eq!(v, vec![42]);
}

#[test]
fn test_flatten_stream() {
    let items = vec![1, 2, 3];
    let mut s = Immediate::new(Items::new(items)).flatten_stream();
    let mut out = Vec::new();
    loop {
        match s.poll_next() {
            Poll::Pending => {}
            Poll::Ready(Some(item)) => out.push(item),
            Poll::Ready(None) => break,
        }
    }
    assert_eq!(out, vec![1, 2, 3]);
}

#[test]
fn test_into_stream_stays_ended() {
    let mut s = Immediate::new(9).into_stream();
    assert_eq!(s.poll_next(), Poll::Ready(Some(9)));
    assert_eq!(s.poll_next(), Poll::Ready(None));
    assert_eq!(s.poll_next(), Poll::Ready(None));
}

#[test]
fn test_items_emits_in_order() {
    let mut s = Items::new(vec![10, 20]);
    assert_eq!(s.poll_next(), Poll::Ready(Some(10)));
    assert_eq!(s.poll_next(), Poll::Ready(Some(20)));
    assert_eq!(s.poll_next(), Poll::Ready(None));
}

#[test]
fn test_items_empty_ends_at_once() {
    let mut s = Items::<i32>::new(Vec::new());
    assert_eq!(s.poll_next(), Poll::Ready(None));
    assert_eq!(s.poll_next(), Poll::Ready(None));
}
