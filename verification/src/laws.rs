//! Laws relating the combinators, stated over the same specification
//! views their polling contracts use.

use vstd::prelude::*;
use vstd::pervasive::cloned;

use crate::computation::Computation;
use crate::either::Either;
use crate::map::Mapped;
use crate::map_into::MapInto;
use crate::shared::clones_of;
use crate::shared::Shared;

verus! {

/// Branch selection is transparent: a left selection behaves exactly
/// as the computation it wraps — same pollability, same completion
/// state, same possible results.  The branch is fixed at construction
/// and polling only ever delegates to it.
pub proof fn lemma_either_left_transparent<L: Computation, R: Computation<Output = L::Output>>(
    l: L,
)
    ensures
        (Either::<L, R>::Left { fut: l }).pollable() == l.pollable(),
        (Either::<L, R>::Left { fut: l }).done() == l.done(),
        forall|v: L::Output| (Either::<L, R>::Left { fut: l }).may_produce(v)
            == l.may_produce(v),
{
}

/// Branch selection is transparent on the right as well.
pub proof fn lemma_either_right_transparent<L: Computation, R: Computation<Output = L::Output>>(
    r: R,
)
    ensures
        (Either::<L, R>::Right { fut: r }).pollable() == r.pollable(),
        (Either::<L, R>::Right { fut: r }).done() == r.done(),
        forall|v: L::Output| (Either::<L, R>::Right { fut: r }).may_produce(v)
            == r.may_produce(v),
{
}

proof fn lemma_staged_to_composed<
    Fut: Computation,
    U,
    W,
    F: FnOnce(Fut::Output) -> U,
    G: FnOnce(U) -> W,
    H: FnOnce(Fut::Output) -> W,
>(fut: Fut, f: F, g: G, h: H, w: W)
    requires
        forall|v: Fut::Output, w: W| #[trigger] call_ensures(h, (v,), w)
            <== exists|u: U| #[trigger] call_ensures(f, (v,), u) && call_ensures(g, (u,), w),
        (Mapped::Incomplete {
            fut: Mapped::Incomplete { fut, f: Some(f) },
            f: Some(g),
        }).may_produce(w),
    ensures
        (Mapped::Incomplete { fut, f: Some(h) }).may_produce(w),
{
    let inner = Mapped::Incomplete { fut, f: Some(f) };
    let staged = Mapped::Incomplete { fut: inner, f: Some(g) };
    let composed = Mapped::Incomplete { fut, f: Some(h) };
    assert(staged matches Mapped::Incomplete { fut: i2, f: o2 } && i2 == inner && o2 == Some(g));
    assert(inner matches Mapped::Incomplete { fut: i3, f: o3 } && i3 == fut && o3 == Some(f));
    assert(composed matches Mapped::Incomplete { fut: i4, f: o4 } && i4 == fut && o4 == Some(h));
    let u = choose|u: U| inner.may_produce(u) && call_ensures(g, (u,), w);
    assert(inner.may_produce(u) && call_ensures(g, (u,), w));
    let v = choose|v: Fut::Output| fut.may_produce(v) && call_ensures(f, (v,), u);
    assert(fut.may_produce(v) && call_ensures(f, (v,), u));
    assert(call_ensures(h, (v,), w));
    assert(composed.may_produce(w));
}

proof fn lemma_composed_to_staged<
    Fut: Computation,
    U,
    W,
    F: FnOnce(Fut::Output) -> U,
    G: FnOnce(U) -> W,
    H: FnOnce(Fut::Output) -> W,
>(fut: Fut, f: F, g: G, h: H, w: W)
    requires
        forall|v: Fut::Output, w: W| #[trigger] call_ensures(h, (v,), w)
            ==> exists|u: U| #[trigger] call_ensures(f, (v,), u) && call_ensures(g, (u,), w),
        (Mapped::Incomplete { fut, f: Some(h) }).may_produce(w),
    ensures
        (Mapped::Incomplete {
            fut: Mapped::Incomplete { fut, f: Some(f) },
            f: Some(g),
        }).may_produce(w),
{
    let inner = Mapped::Incomplete { fut, f: Some(f) };
    let staged = Mapped::Incomplete { fut: inner, f: Some(g) };
    let composed = Mapped::Incomplete { fut, f: Some(h) };
    assert(staged matches Mapped::Incomplete { fut: i2, f: o2 } && i2 == inner && o2 == Some(g));
    assert(inner matches Mapped::Incomplete { fut: i3, f: o3 } && i3 == fut && o3 == Some(f));
    assert(composed matches Mapped::Incomplete { fut: i4, f: o4 } && i4 == fut && o4 == Some(h));
    let v = choose|v: Fut::Output| fut.may_produce(v) && call_ensures(h, (v,), w);
    assert(fut.may_produce(v) && call_ensures(h, (v,), w));
    let u = choose|u: U| #[trigger] call_ensures(f, (v,), u) && call_ensures(g, (u,), w);
    assert(call_ensures(f, (v,), u) && call_ensures(g, (u,), w));
    assert(inner.may_produce(u));
    assert(staged.may_produce(w));
}

/// Semantically equivalent groupings of transforms are equivalent as
/// combinators: mapping `f` and then `g` over a computation may
/// produce exactly the values that mapping their composition `h` may,
/// whenever `h` relates inputs to outputs as `f` followed by `g` does.
pub proof fn lemma_map_map_composes<
    Fut: Computation,
    U,
    W,
    F: FnOnce(Fut::Output) -> U,
    G: FnOnce(U) -> W,
    H: FnOnce(Fut::Output) -> W,
>(fut: Fut, f: F, g: G, h: H)
    requires
        forall|v: Fut::Output, w: W| #[trigger] call_ensures(h, (v,), w)
            <==> exists|u: U| #[trigger] call_ensures(f, (v,), u) && call_ensures(g, (u,), w),
    ensures
        forall|w: W|
            (Mapped::Incomplete {
                fut: Mapped::Incomplete { fut, f: Some(f) },
                f: Some(g),
            }).may_produce(w) == (Mapped::Incomplete { fut, f: Some(h) }).may_produce(w),
{
    let staged = Mapped::Incomplete { fut: Mapped::Incomplete { fut, f: Some(f) }, f: Some(g) };
    let composed = Mapped::Incomplete { fut, f: Some(h) };
    assert forall|w: W| staged.may_produce(w) == composed.may_produce(w) by {
        if staged.may_produce(w) {
            lemma_staged_to_composed(fut, f, g, h, w);
        }
        if composed.may_produce(w) {
            lemma_composed_to_staged(fut, f, g, h, w);
        }
    }
}

/// Single completion: a transform combinator that has delivered its
/// value rejects every further poll — the completed state is not
/// pollable, and no value can be produced from it.
pub proof fn lemma_completed_map_rejects<Fut: Computation, U, F: FnOnce(Fut::Output) -> U>(u: U)
    ensures
        !(Mapped::<Fut, F>::Complete).pollable(),
        !(Mapped::<Fut, F>::Complete).may_produce(u),
{
}

/// Single completion for the conversion combinator: the completed
/// state is not pollable, and no value can be produced from it.
pub proof fn lemma_completed_map_into_rejects<Fut: Computation, U: From<Fut::Output>>(u: U)
    ensures
        !(MapInto::<Fut, U>::Complete).pollable(),
        !(MapInto::<Fut, U>::Complete).may_produce(u),
{
}

/// Memoization delivers one value: when the underlying computation
/// can only produce `x`, a handle whose observable values are the
/// clones of that computation's results — as every handle built by
/// `Shared::new` and `Shared::clone` is — can only ever observe a
/// clone of `x`, however many handles share the computation and in
/// whatever order they are polled.
pub proof fn lemma_shared_single_result<Fut: Computation>(
    fut: Fut,
    h: Shared<Fut>,
    v: Fut::Output,
    x: Fut::Output,
) where Fut::Output: Clone
    requires
        forall|w: Fut::Output| fut.may_produce(w) <==> w == x,
        forall|w: Fut::Output| h.observable(w) == clones_of(fut, w),
    ensures
        h.observable(v) <==> cloned(x, v),
{
    if h.observable(v) {
        let w0 = choose|w0: Fut::Output| #[trigger] fut.may_produce(w0) && cloned(w0, v);
        assert(w0 == x);
    }
    if cloned(x, v) {
        assert(fut.may_produce(x) && cloned(x, v));
        assert(clones_of(fut, v));
    }
}

} // verus!
