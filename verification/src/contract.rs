//! The mathematical model of a unary callable.
use vstd::prelude::*;

verus! {

/// What is known of a unary callable from `A` to `B`: the inputs on which it
/// may be invoked, and for each input the outputs it may give.
#[verifier::ext_equal]
#[verifier::reject_recursive_types(A)]
#[verifier::reject_recursive_types(B)]
pub struct Contract<A, B> {
    /// Holds of the inputs on which the callable may be invoked.
    pub pre: spec_fn(A) -> bool,
    /// Holds of an input and each output that an invocation on it may give.
    pub post: spec_fn(A, B) -> bool,
}

impl<A, B> Contract<A, B> {
    /// The contract that a callable carries by its own signature.
    pub open spec fn of<F: Fn(A) -> B>(f: F) -> Contract<A, B> {
        Contract {
            pre: |a: A| call_requires(f, (a,)),
            post: |a: A, b: B| call_ensures(f, (a,), b),
        }
    }

    /// Sequential composition: `self` runs first and `next` runs on its
    /// output. An input is admitted when `self` admits it and `next` admits
    /// whatever `self` may give for it. An output is possible when `next` may
    /// give it for something that `self` may give for the input.
    pub open spec fn followed_by<C>(self, next: Contract<B, C>) -> Contract<A, C> {
        Contract {
            pre: |a: A|
                (self.pre)(a) && forall|b: B|
                    #![trigger (self.post)(a, b)]
                    #![trigger (next.pre)(b)]
                    (self.post)(a, b) ==> (next.pre)(b),
            post: |a: A, c: C|
                exists|b: B|
                    #![trigger (self.post)(a, b)]
                    #![trigger (next.post)(b, c)]
                    (self.post)(a, b) && (next.post)(b, c),
        }
    }

    /// No two different outputs are possible on `a`.
    pub open spec fn deterministic_at(self, a: A) -> bool {
        forall|x: B, y: B| #[trigger] (self.post)(a, x) && #[trigger] (self.post)(a, y) ==> x == y
    }

    /// `a` is admitted and `b` is the only output possible on it.
    pub open spec fn maps(self, a: A, b: B) -> bool {
        &&& (self.pre)(a)
        &&& forall|o: B| #[trigger] (self.post)(a, o) ==> o == b
    }
}

/// Sequential composition is associative: how three steps are grouped makes
/// no difference to what they admit and give.
pub proof fn lemma_followed_by_associative<A, B, C, D>(
    c1: Contract<A, B>,
    c2: Contract<B, C>,
    c3: Contract<C, D>,
)
    ensures
        c1.followed_by(c2).followed_by(c3) == c1.followed_by(c2.followed_by(c3)),
{
    let c12 = c1.followed_by(c2);
    let c23 = c2.followed_by(c3);
    let left = c12.followed_by(c3);
    let right = c1.followed_by(c23);
    assert forall|a: A| #[trigger] (left.pre)(a) == (right.pre)(a) by {
        if (left.pre)(a) {
            assert forall|b: B| #[trigger] (c1.post)(a, b) implies (c23.pre)(b) by {
                assert forall|c: C| #[trigger] (c2.post)(b, c) implies (c3.pre)(c) by {
                    assert((c12.post)(a, c));
                }
            }
        }
        if (right.pre)(a) {
            assert forall|c: C| #[trigger] (c12.post)(a, c) implies (c3.pre)(c) by {
                let b = choose|b: B| #[trigger] (c1.post)(a, b) && #[trigger] (c2.post)(b, c);
                assert((c23.pre)(b));
            }
        }
    }
    assert forall|a: A, d: D| #[trigger] (left.post)(a, d) == (right.post)(a, d) by {
        if (left.post)(a, d) {
            let c = choose|c: C| #[trigger] (c12.post)(a, c) && #[trigger] (c3.post)(c, d);
            let b = choose|b: B| #[trigger] (c1.post)(a, b) && #[trigger] (c2.post)(b, c);
            assert((c23.post)(b, d));
        }
        if (right.post)(a, d) {
            let b = choose|b: B| #[trigger] (c1.post)(a, b) && #[trigger] (c23.post)(b, d);
            let c = choose|c: C| #[trigger] (c2.post)(b, c) && #[trigger] (c3.post)(c, d);
            assert((c12.post)(a, c));
        }
    }
    assert(left =~= right);
}

/// Where the first step can only give `b` for `a`, and the second can only
/// give `c` for `b`, the composition admits `a` and can only give `c`.
pub proof fn lemma_followed_by_maps<A, B, C>(
    first: Contract<A, B>,
    next: Contract<B, C>,
    a: A,
    b: B,
    c: C,
)
    requires
        first.maps(a, b),
        next.maps(b, c),
    ensures
        first.followed_by(next).maps(a, c),
{
}

/// A composition is deterministic on `a` when its first step is, and its
/// second step is on whatever the first may give for `a`.
pub proof fn lemma_followed_by_deterministic<A, B, C>(
    first: Contract<A, B>,
    next: Contract<B, C>,
    a: A,
)
    requires
        first.deterministic_at(a),
        forall|b: B| #[trigger] (first.post)(a, b) ==> next.deterministic_at(b),
    ensures
        first.followed_by(next).deterministic_at(a),
{
}

} // verus!
