//! The infallible filter capability and its combinator helpers.

use vstd::prelude::*;

use crate::ops::and::And;
use crate::ops::bool::Bool;
use crate::ops::failable::IntoFailable;
use crate::ops::map::MapInput;
use crate::ops::not::Not;
use crate::ops::or::Or;
use crate::ops::xor::XOr;

verus! {

/// The closure accepts every input.
pub open spec fn fn_total<A, B, F: Fn(&A) -> B>(f: F) -> bool {
    forall|e: A| call_requires(f, (&e,))
}

/// The closure admits at most one result for each input: what it returns
/// depends on the input alone.
pub open spec fn fn_decisive<A, B, F: Fn(&A) -> B>(f: F) -> bool {
    forall|e: A, r1: B, r2: B| call_ensures(f, (&e,), r1) && call_ensures(f, (&e,), r2) ==> r1 == r2
}

/// The one result a total, decisive closure returns for `e`.
pub open spec fn fn_val<A, B, F: Fn(&A) -> B>(f: F, e: A) -> B {
    choose|r: B| call_ensures(f, (&e,), r)
}

/// The closure, taking its argument by value, accepts every input.
pub open spec fn fn_total_owned<A, B, F: Fn(A) -> B>(f: F) -> bool {
    forall|e: A| call_requires(f, (e,))
}

/// The closure, taking its argument by value, admits at most one result for
/// each input.
pub open spec fn fn_decisive_owned<A, B, F: Fn(A) -> B>(f: F) -> bool {
    forall|e: A, r1: B, r2: B| call_ensures(f, (e,), r1) && call_ensures(f, (e,), r2) ==> r1 == r2
}

/// The one result a total, decisive by-value closure returns for `e`.
pub open spec fn fn_val_owned<A, B, F: Fn(A) -> B>(f: F, e: A) -> B {
    choose|r: B| call_ensures(f, (e,), r)
}

/// Trait for converting something into a Filter.
pub trait IntoFilter<N> {
    type IntoFilt;

    /// The filter that `into_filter` returns.
    spec fn spec_into_filter(self) -> Self::IntoFilt where Self: Sized;

    fn into_filter(self) -> (r: Self::IntoFilt) where Self: Sized
        ensures
            r == self.spec_into_filter(),
    ;
}

/// All filters convert into themselves.
impl<N, I: Filter<N>> IntoFilter<N> for I {
    type IntoFilt = I;

    open spec fn spec_into_filter(self) -> I {
        self
    }

    fn into_filter(self) -> (r: I) {
        self
    }
}

/// The filter trait: a predicate deciding a boolean about a borrowed `N`.
pub trait Filter<N> {
    /// The predicate is total and deterministic, so that `filter` returns
    /// exactly `eval`. Combinator nodes are well-formed when their children
    /// are. An implementation whose `filter` is proved against its own
    /// `eval` replaces this default.
    open spec fn wf(&self) -> bool {
        false
    }

    /// What the predicate decides about `e`, as a mathematical function of
    /// the predicate and the input alone. An implementation whose `filter`
    /// is proved against it replaces this default.
    open spec fn eval(&self, e: N) -> bool {
        vstd::pervasive::arbitrary()
    }

    /// The function which is used to filter something.
    fn filter(&self, e: &N) -> (r: bool)
        requires
            self.wf(),
        ensures
            r == self.eval(*e),
    ;

    /// Helper to invert a filter.
    fn not(self) -> (r: Not<Self>) where Self: Sized
        ensures
            r.a == self,
    {
        Not::new(self)
    }

    /// Helper to connect two filters via logical OR.
    fn or<F: IntoFilter<N>>(self, other: F) -> (r: Or<Self, F::IntoFilt>) where Self: Sized
        ensures
            r.a == self,
            r.b == other.spec_into_filter(),
    {
        Or::new(self, other.into_filter())
    }

    /// Helper to connect two filters via logical OR and NOT.
    fn or_not<F: IntoFilter<N>>(self, other: F) -> (r: Or<Self, Not<F::IntoFilt>>) where
        Self: Sized
        ensures
            r.a == self,
            r.b.a == other.spec_into_filter(),
    {
        Or::new(self, Not::new(other.into_filter()))
    }

    /// Helper to connect three filters via logical OR, right-associated.
    fn or3<F: IntoFilter<N>, F2: IntoFilter<N>>(self, other: F, other2: F2) -> (r: Or<
        Self,
        Or<F::IntoFilt, F2::IntoFilt>,
    >) where Self: Sized
        ensures
            r.a == self,
            r.b.a == other.spec_into_filter(),
            r.b.b == other2.spec_into_filter(),
    {
        Or::new(self, Or::new(other.into_filter(), other2.into_filter()))
    }

    /// Helper to connect two filters via logical NOR.
    fn nor<F>(self, other: F) -> (r: Not<Or<Self, F>>) where Self: Sized
        ensures
            r.a.a == self,
            r.a.b == other,
    {
        Not::new(Or::new(self, other))
    }

    /// Helper to connect two filters via logical XOR.
    fn xor<F>(self, other: F) -> (r: XOr<Self, F>) where Self: Sized
        ensures
            r.a == self,
            r.b == other,
    {
        XOr::new(self, other)
    }

    /// Helper to connect two filters via logical AND.
    fn and<F: IntoFilter<N>>(self, other: F) -> (r: And<Self, F::IntoFilt>) where Self: Sized
        ensures
            r.a == self,
            r.b == other.spec_into_filter(),
    {
        And::new(self, other.into_filter())
    }

    /// Helper to connect three filters via logical AND, right-associated.
    fn and3<F: IntoFilter<N>, F2: IntoFilter<N>>(self, other: F, other2: F2) -> (r: And<
        Self,
        And<F::IntoFilt, F2::IntoFilt>,
    >) where Self: Sized
        ensures
            r.a == self,
            r.b.a == other.spec_into_filter(),
            r.b.b == other2.spec_into_filter(),
    {
        And::new(self, And::new(other.into_filter(), other2.into_filter()))
    }

    /// Helper to connect two filters via logical AND and NOT.
    fn and_not<F: IntoFilter<N>>(self, other: F) -> (r: And<Self, Not<F::IntoFilt>>) where
        Self: Sized
        ensures
            r.a == self,
            r.b.a == other.spec_into_filter(),
    {
        And::new(self, Not::new(other.into_filter()))
    }

    /// Helper to connect two filters via logical NAND.
    fn nand<F>(self, other: F) -> (r: Not<And<Self, F>>) where Self: Sized
        ensures
            r.a.a == self,
            r.a.b == other,
    {
        Not::new(And::new(self, other))
    }

    /// Helper to transform the input of a filter with a pure map.
    fn map_input<T, M: Fn(&T) -> N>(self, map: M) -> (r: MapInput<Self, M, N>) where Self: Sized
        ensures
            r.f == self,
            r.m == map,
    {
        MapInput::new(self, map)
    }

    /// Helper to transform a filter into a FailableFilter that never fails.
    fn into_failable(self) -> (r: IntoFailable<Self>) where Self: Sized
        ensures
            r.f == self,
    {
        IntoFailable::new(self)
    }
}

/// AND law: for all filters `a`, `b` and every input `x`, the conjunction
/// combinator evaluates to the conjunction of its children.
pub proof fn lemma_and_evaluates_conjunction<N, A: Filter<N>, B: Filter<N>>(a: A, b: B, x: N)
    ensures
        (And { a: a, b: b }).eval(x) == (a.eval(x) && b.eval(x)),
{
}

/// OR law: for all filters `a`, `b` and every input `x`, the disjunction
/// combinator evaluates to the disjunction of its children.
pub proof fn lemma_or_evaluates_disjunction<N, A: Filter<N>, B: Filter<N>>(a: A, b: B, x: N)
    ensures
        (Or { a: a, b: b }).eval(x) == (a.eval(x) || b.eval(x)),
{
}

/// Double negation is identity: for every filter `a` and input `x`,
/// negating twice evaluates as `a` does.
pub proof fn lemma_double_negation_identity<N, A: Filter<N>>(a: A, x: N)
    ensures
        (Not { a: (Not { a: a }) }).eval(x) == a.eval(x),
{
}

/// XOR law: for all filters `a`, `b` and every input `x`, the exclusive
/// disjunction combinator evaluates to the inequality of its children.
pub proof fn lemma_xor_evaluates_inequality<N, A: Filter<N>, B: Filter<N>>(a: A, b: B, x: N)
    ensures
        (XOr { a: a, b: b }).eval(x) == (a.eval(x) != b.eval(x)),
{
}

/// NAND and NOR laws: for all filters `a`, `b` and every input `x`, the
/// negated conjunction and the negated disjunction evaluate to the negation
/// of what the plain combinators evaluate to.
pub proof fn lemma_nand_nor_negate_and_or<N, A: Filter<N>, B: Filter<N>>(a: A, b: B, x: N)
    ensures
        (Not { a: (And { a: a, b: b }) }).eval(x) == !(a.eval(x) && b.eval(x)),
        (Not { a: (Or { a: a, b: b }) }).eval(x) == !(a.eval(x) || b.eval(x)),
{
}

/// Purity: evaluation is a mathematical function of the predicate tree and
/// the input, so any two results that `filter` may return for the same tree
/// and the same input agree, however often it is called.
pub proof fn lemma_evaluation_pure<N, A: Filter<N>>(a: A, x: N, r1: bool, r2: bool)
    requires
        r1 == a.eval(x),
        r2 == a.eval(x),
    ensures
        r1 == r2,
{
}

/// All closures that take a ref to something and return bool are filters.
impl<I, T: Fn(&I) -> bool> Filter<I> for T {
    #[verifier::inline]
    open spec fn wf(&self) -> bool {
        fn_total(*self) && fn_decisive(*self)
    }

    #[verifier::inline]
    open spec fn eval(&self, e: I) -> bool {
        fn_val(*self, e)
    }

    fn filter(&self, e: &I) -> (r: bool) {
        let r = (self)(e);
        proof {
            assert(call_ensures(*self, (e,), r));
        }
        r
    }
}

} // verus!
