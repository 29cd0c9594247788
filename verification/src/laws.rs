//! What holds of every box, whatever function it owns.
//!
//! Each law speaks of boxes through their views. Where a law needs the
//! result of a call, it takes a box whose view is what the call ensures.
use crate::contract::lemma_followed_by_associative;
use crate::contract::lemma_followed_by_deterministic;
use crate::contract::lemma_followed_by_maps;
use crate::contract::Contract;
use crate::wrapper::{Apply, ApplyDrop, FBox};
use vstd::prelude::*;

verus! {

/// Invoking a box by reference and invoking it by value answer to one
/// contract, the view of the box: that the box is consumed changes neither
/// what it admits nor what it may give.
pub proof fn lemma_invocation_modes_share_contract<FIn, FOut>(b: FBox<FIn, FOut>)
    ensures
        b.apply_contract() == b@,
        b.apply_drop_contract() == b@,
{
}

/// On an input for which the box leaves one output possible, `apply` and
/// `apply_drop` give the same output.
pub proof fn lemma_invocation_modes_agree<FIn, FOut>(
    b: FBox<FIn, FOut>,
    x: FIn,
    by_ref: FOut,
    by_value: FOut,
)
    requires
        b@.deterministic_at(x),
        (b.apply_contract().post)(x, by_ref),
        (b.apply_drop_contract().post)(x, by_value),
    ensures
        by_ref == by_value,
{
}

/// On an input for which the box leaves one output possible, `apply` gives
/// the same output however often it is called.
pub proof fn lemma_apply_repeatable<FIn, FOut>(
    b: FBox<FIn, FOut>,
    x: FIn,
    first: FOut,
    second: FOut,
)
    requires
        b@.deterministic_at(x),
        (b.apply_contract().post)(x, first),
        (b.apply_contract().post)(x, second),
    ensures
        first == second,
{
}

/// Composition keeps what repeatability rests on: a box composed of a step
/// that leaves one output possible on `x`, and a step that leaves one output
/// possible on whatever the first gives for `x`, leaves one output possible
/// on `x`.
pub proof fn lemma_composed_deterministic<A, B, C>(
    first: Contract<A, B>,
    next: Contract<B, C>,
    composed: FBox<A, C>,
    x: A,
)
    requires
        composed@ == first.followed_by(next),
        first.deterministic_at(x),
        forall|y: B| #[trigger] (first.post)(x, y) ==> next.deterministic_at(y),
    ensures
        composed@.deterministic_at(x),
{
    lemma_followed_by_deterministic(first, next, x);
}

/// `compose` gives a box that computes `f(g(x))`: where `g` can only give
/// `y` for `x`, and the box `f` can only give `z` for `y`, the composed box
/// `fg` admits `x` and can only give `z`.
pub proof fn lemma_compose_output<FIn, FOut, GIn, G: Fn(GIn) -> FIn>(
    f: FBox<FIn, FOut>,
    g: G,
    fg: FBox<GIn, FOut>,
    x: GIn,
    y: FIn,
    z: FOut,
)
    requires
        fg@ == Contract::of(g).followed_by(f@),
        Contract::of(g).maps(x, y),
        f@.maps(y, z),
    ensures
        fg@.maps(x, z),
{
    lemma_followed_by_maps(Contract::of(g), f@, x, y, z);
}

/// `and_then` gives a box that computes `g(f(x))`: where the box `f` can
/// only give `y` for `x`, and `g` can only give `z` for `y`, the composed
/// box `fg` admits `x` and can only give `z`.
pub proof fn lemma_and_then_output<FIn, FOut, GOut, G: Fn(FOut) -> GOut>(
    f: FBox<FIn, FOut>,
    g: G,
    fg: FBox<FIn, GOut>,
    x: FIn,
    y: FOut,
    z: GOut,
)
    requires
        fg@ == f@.followed_by(Contract::of(g)),
        f@.maps(x, y),
        Contract::of(g).maps(y, z),
    ensures
        fg@.maps(x, z),
{
    lemma_followed_by_maps(f@, Contract::of(g), x, y, z);
}

/// Composing with a function held in a box is composing with the function
/// itself: for `f`, and a box made by `new` from `g`, `compose_b` gives a
/// box with the view of the box that `compose` gives for `f` and `g`.
pub proof fn lemma_compose_b_is_compose<FIn, FOut, GIn, G: Fn(GIn) -> FIn>(
    f: FBox<FIn, FOut>,
    g: G,
    boxed_g: FBox<GIn, FIn>,
    via_box: FBox<GIn, FOut>,
    via_fn: FBox<GIn, FOut>,
)
    requires
        boxed_g@ == Contract::of(g),
        via_box@ == boxed_g@.followed_by(f@),
        via_fn@ == Contract::of(g).followed_by(f@),
    ensures
        via_box@ == via_fn@,
{
}

/// Chaining with a function held in a box is chaining with the function
/// itself: for `f`, and a box made by `new` from `g`, `and_then_b` gives a
/// box with the view of the box that `and_then` gives for `f` and `g`.
pub proof fn lemma_and_then_b_is_and_then<FIn, FOut, GOut, G: Fn(FOut) -> GOut>(
    f: FBox<FIn, FOut>,
    g: G,
    boxed_g: FBox<FOut, GOut>,
    via_box: FBox<FIn, GOut>,
    via_fn: FBox<FIn, GOut>,
)
    requires
        boxed_g@ == Contract::of(g),
        via_box@ == f@.followed_by(boxed_g@),
        via_fn@ == f@.followed_by(Contract::of(g)),
    ensures
        via_box@ == via_fn@,
{
}

/// Two boxes with one view cannot be told apart by invoking them: on an
/// input for which the view leaves one output possible, both give the same
/// output.
pub proof fn lemma_same_view_same_output<FIn, FOut>(
    b1: FBox<FIn, FOut>,
    b2: FBox<FIn, FOut>,
    x: FIn,
    out1: FOut,
    out2: FOut,
)
    requires
        b1@ == b2@,
        b1@.deterministic_at(x),
        (b1.apply_contract().post)(x, out1),
        (b2.apply_contract().post)(x, out2),
    ensures
        out1 == out2,
{
}

/// Chained `and_then` keeps the order of its steps: the box `fgh` got from
/// `f` by `and_then(g)` and then `and_then(h)` runs `f`, then `g`, then `h`,
/// and it makes no difference how the three steps are grouped.
pub proof fn lemma_and_then_chain<A, B, C, D, G: Fn(B) -> C, H: Fn(C) -> D>(
    f: FBox<A, B>,
    g: G,
    h: H,
    fg: FBox<A, C>,
    fgh: FBox<A, D>,
)
    requires
        fg@ == f@.followed_by(Contract::of(g)),
        fgh@ == fg@.followed_by(Contract::of(h)),
    ensures
        fgh@ == f@.followed_by(Contract::of(g)).followed_by(Contract::of(h)),
        fgh@ == f@.followed_by(Contract::of(g).followed_by(Contract::of(h))),
{
    lemma_followed_by_associative(f@, Contract::of(g), Contract::of(h));
}

/// Chained `and_then` computes `h(g(f(x)))`: where `f` can only give `y`
/// for `x`, `g` only `z` for `y`, and `h` only `w` for `z`, the chained box
/// `fgh` admits `x` and can only give `w`.
pub proof fn lemma_and_then_chain_output<A, B, C, D, G: Fn(B) -> C, H: Fn(C) -> D>(
    f: FBox<A, B>,
    g: G,
    h: H,
    fg: FBox<A, C>,
    fgh: FBox<A, D>,
    x: A,
    y: B,
    z: C,
    w: D,
)
    requires
        fg@ == f@.followed_by(Contract::of(g)),
        fgh@ == fg@.followed_by(Contract::of(h)),
        f@.maps(x, y),
        Contract::of(g).maps(y, z),
        Contract::of(h).maps(z, w),
    ensures
        fgh@.maps(x, w),
{
    lemma_and_then_output(f, g, fg, x, y, z);
    lemma_and_then_output(fg, h, fgh, x, z, w);
}

} // verus!
