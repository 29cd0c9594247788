//! The function box and its two ways of invocation.
use crate::contract::Contract;
use vstd::prelude::*;

verus! {

/// Applies a unary function held inside a wrapper. `apply` borrows the
/// wrapper and takes ownership of the argument, so the wrapper can be
/// applied any number of times.
pub trait Apply {
    type In;

    type Out;

    /// What `apply` asks of its argument and promises of its result.
    spec fn apply_contract(&self) -> Contract<Self::In, Self::Out>;

    fn apply(&self, a: Self::In) -> (out: Self::Out)
        requires
            (self.apply_contract().pre)(a),
        ensures
            (self.apply_contract().post)(a, out),
    ;
}

/// Works as [`Apply`] does, except that `apply_drop` takes ownership of the
/// wrapper too: whatever the wrapper owns is released with the call.
pub trait ApplyDrop {
    type In;

    type Out;

    /// What `apply_drop` asks of its argument and promises of its result.
    spec fn apply_drop_contract(&self) -> Contract<Self::In, Self::Out>;

    fn apply_drop(self, a: Self::In) -> (out: Self::Out)
        requires
            (self.apply_drop_contract().pre)(a),
        ensures
            (self.apply_drop_contract().post)(a, out),
    ;
}

/// A callable from `A` to `B` behind one object-safe interface, so that a
/// box can own callables of any type.
trait Callable<A, B> {
    /// What `call` asks of its argument and promises of its result.
    spec fn contract(&self) -> Contract<A, B>;

    fn call(&self, a: A) -> (out: B)
        requires
            (self.contract().pre)(a),
        ensures
            (self.contract().post)(a, out),
    ;
}

impl<A, B, F: Fn(A) -> B> Callable<A, B> for F {
    spec fn contract(&self) -> Contract<A, B> {
        Contract::of(*self)
    }

    fn call(&self, a: A) -> (out: B) {
        self(a)
    }
}

/// Two callables behind one interface: `first` runs on the input and `next`
/// on what `first` gives.
#[verifier::reject_recursive_types(A)]
#[verifier::reject_recursive_types(B)]
#[verifier::reject_recursive_types(C)]
struct Chain<A, B, C> {
    first: Box<dyn Callable<A, B>>,
    next: Box<dyn Callable<B, C>>,
}

impl<A, B, C> Callable<A, C> for Chain<A, B, C> {
    spec fn contract(&self) -> Contract<A, C> {
        self.first.contract().followed_by(self.next.contract())
    }

    fn call(&self, a: A) -> (out: C) {
        self.next.call(self.first.call(a))
    }
}

/// A wrapper that owns one unary function from `FIn` to `FOut`.
///
/// Boxes compose into new boxes in a type-safe manner: the output type of
/// the step that runs first is the input type of the step that runs next.
/// A box is lazy. It calls its function only when `apply` or `apply_drop`
/// is called on it, and composing boxes calls nothing.
///
/// The view of a box is the [`Contract`] of the function it owns.
#[verifier::reject_recursive_types(FIn)]
#[verifier::reject_recursive_types(FOut)]
pub struct FBox<FIn, FOut> {
    f: Box<dyn Callable<FIn, FOut>>,
}

impl<FIn, FOut> View for FBox<FIn, FOut> {
    type V = Contract<FIn, FOut>;

    closed spec fn view(&self) -> Contract<FIn, FOut> {
        self.f.contract()
    }
}

impl<FIn, FOut> Apply for FBox<FIn, FOut> {
    type In = FIn;

    type Out = FOut;

    open spec fn apply_contract(&self) -> Contract<FIn, FOut> {
        self@
    }

    fn apply(&self, a: FIn) -> (out: FOut) {
        self.f.call(a)
    }
}

impl<FIn, FOut> ApplyDrop for FBox<FIn, FOut> {
    type In = FIn;

    type Out = FOut;

    open spec fn apply_drop_contract(&self) -> Contract<FIn, FOut> {
        self@
    }

    fn apply_drop(self, a: FIn) -> (out: FOut) {
        self.f.call(a)
    }
}

impl<FIn: 'static, FOut: 'static> FBox<FIn, FOut> {
    /// Creates a new box from a unary function. The box admits what `f`
    /// admits and gives what `f` gives.
    pub fn new(f: impl Fn(FIn) -> FOut + 'static) -> (b: FBox<FIn, FOut>)
        ensures
            b@ == Contract::of(f),
    {
        FBox { f: Box::new(f) }
    }

    /// Composes the function `f` of this box with `g` into a new box that
    /// computes `f(g(x))`: `g` runs first, `f` runs on its output. Nothing is
    /// asked of `g` here and nothing is called: both run when the new box is
    /// invoked.
    pub fn compose<GIn: 'static>(
        self,
        g: impl Fn(GIn) -> FIn + 'static,
    ) -> (b: FBox<GIn, FOut>)
        ensures
            b@ == Contract::of(g).followed_by(self@),
    {
        FBox { f: Box::new(Chain { first: Box::new(g), next: self.f }) }
    }

    /// Composes the function `f` of this box with `g` into a new box that
    /// computes `g(f(x))`: `f` runs first, `g` runs on its output. Nothing is
    /// asked of `g` here and nothing is called: both run when the new box is
    /// invoked.
    pub fn and_then<GOut: 'static>(
        self,
        g: impl Fn(FOut) -> GOut + 'static,
    ) -> (b: FBox<FIn, GOut>)
        ensures
            b@ == self@.followed_by(Contract::of(g)),
    {
        FBox { f: Box::new(Chain { first: self.f, next: Box::new(g) }) }
    }

    /// As `compose`, with the function that runs first held in a box: the
    /// new box computes `f(other(x))`.
    pub fn compose_b<GIn: 'static>(self, other: FBox<GIn, FIn>) -> (b: FBox<GIn, FOut>)
        ensures
            b@ == other@.followed_by(self@),
    {
        FBox { f: Box::new(Chain { first: other.f, next: self.f }) }
    }

    /// As `and_then`, with the function that runs next held in a box: the
    /// new box computes `other(f(x))`.
    pub fn and_then_b<GOut: 'static>(self, other: FBox<FOut, GOut>) -> (b: FBox<FIn, GOut>)
        ensures
            b@ == self@.followed_by(other@),
    {
        FBox { f: Box::new(Chain { first: self.f, next: other.f }) }
    }
}

} // verus!
