//! The failable filter capability and its combinator helpers.

use vstd::prelude::*;

use crate::failable::ops::FailableAnd;
use crate::failable::ops::FailableMapErr;
use crate::failable::ops::FailableMapInput;
use crate::failable::ops::FailableNot;
use crate::failable::ops::FailableOr;
use crate::failable::ops::FailableXOr;
use crate::filter::fn_decisive;
use crate::filter::fn_total;
use crate::filter::fn_val;

verus! {

/// Trait for converting something into a FailableFilter.
pub trait IntoFailableFilter<N> {
    type IntoFilt;

    /// The failable filter that `into_failable_filter` returns.
    spec fn spec_into_failable_filter(self) -> Self::IntoFilt where Self: Sized;

    fn into_failable_filter(self) -> (r: Self::IntoFilt) where Self: Sized
        ensures
            r == self.spec_into_failable_filter(),
    ;
}

/// All failable filters convert into themselves.
impl<N, I: FailableFilter<N>> IntoFailableFilter<N> for I {
    type IntoFilt = I;

    open spec fn spec_into_failable_filter(self) -> I {
        self
    }

    fn into_failable_filter(self) -> (r: I) {
        self
    }
}

/// The failable filter trait: a predicate deciding a boolean about a
/// borrowed `N`, or failing with an error of the associated type.
pub trait FailableFilter<N> {
    type Error: Sized;

    /// The predicate is total and deterministic, so that `filter` returns
    /// exactly `eval`. Combinator nodes are well-formed when their children
    /// are. An implementation whose `filter` is proved against its own
    /// `eval` replaces this default.
    open spec fn wf(&self) -> bool {
        false
    }

    /// What the predicate decides about `e`: a boolean or an error, as a
    /// mathematical function of the predicate and the input alone. An
    /// implementation whose `filter` is proved against it replaces this
    /// default.
    open spec fn eval(&self, e: N) -> Result<bool, Self::Error> {
        vstd::pervasive::arbitrary()
    }

    /// The function which is used to filter something.
    fn filter(&self, e: &N) -> (r: Result<bool, Self::Error>)
        requires
            self.wf(),
        ensures
            r == self.eval(*e),
    ;

    /// Helper to invert a failable filter.
    fn not(self) -> (r: FailableNot<Self>) where Self: Sized
        ensures
            r.a == self,
    {
        FailableNot::new(self)
    }

    /// Helper to connect two failable filters via logical OR.
    fn or<F: IntoFailableFilter<N>>(self, other: F) -> (r: FailableOr<Self, F::IntoFilt>) where
        Self: Sized
        ensures
            r.a == self,
            r.b == other.spec_into_failable_filter(),
    {
        FailableOr::new(self, other.into_failable_filter())
    }

    /// Helper to connect two failable filters via logical OR and NOT.
    fn or_not<F: IntoFailableFilter<N>>(self, other: F) -> (r: FailableOr<
        Self,
        FailableNot<F::IntoFilt>,
    >) where Self: Sized
        ensures
            r.a == self,
            r.b.a == other.spec_into_failable_filter(),
    {
        FailableOr::new(self, FailableNot::new(other.into_failable_filter()))
    }

    /// Helper to connect three failable filters via logical OR,
    /// right-associated.
    fn or3<F: IntoFailableFilter<N>, F2: IntoFailableFilter<N>>(
        self,
        other: F,
        other2: F2,
    ) -> (r: FailableOr<Self, FailableOr<F::IntoFilt, F2::IntoFilt>>) where Self: Sized
        ensures
            r.a == self,
            r.b.a == other.spec_into_failable_filter(),
            r.b.b == other2.spec_into_failable_filter(),
    {
        FailableOr::new(
            self,
            FailableOr::new(other.into_failable_filter(), other2.into_failable_filter()),
        )
    }

    /// Helper to connect two failable filters via logical NOR.
    fn nor<F>(self, other: F) -> (r: FailableNot<FailableOr<Self, F>>) where Self: Sized
        ensures
            r.a.a == self,
            r.a.b == other,
    {
        FailableNot::new(FailableOr::new(self, other))
    }

    /// Helper to connect two failable filters via logical XOR.
    fn xor<F>(self, other: F) -> (r: FailableXOr<Self, F>) where Self: Sized
        ensures
            r.a == self,
            r.b == other,
    {
        FailableXOr::new(self, other)
    }

    /// Helper to connect two failable filters via logical AND.
    fn and<F: IntoFailableFilter<N>>(self, other: F) -> (r: FailableAnd<Self, F::IntoFilt>) where
        Self: Sized
        ensures
            r.a == self,
            r.b == other.spec_into_failable_filter(),
    {
        FailableAnd::new(self, other.into_failable_filter())
    }

    /// Helper to connect three failable filters via logical AND,
    /// right-associated.
    fn and3<F: IntoFailableFilter<N>, F2: IntoFailableFilter<N>>(
        self,
        other: F,
        other2: F2,
    ) -> (r: FailableAnd<Self, FailableAnd<F::IntoFilt, F2::IntoFilt>>) where Self: Sized
        ensures
            r.a == self,
            r.b.a == other.spec_into_failable_filter(),
            r.b.b == other2.spec_into_failable_filter(),
    {
        FailableAnd::new(
            self,
            FailableAnd::new(other.into_failable_filter(), other2.into_failable_filter()),
        )
    }

    /// Helper to connect two failable filters via logical AND and NOT.
    fn and_not<F: IntoFailableFilter<N>>(self, other: F) -> (r: FailableAnd<
        Self,
        FailableNot<F::IntoFilt>,
    >) where Self: Sized
        ensures
            r.a == self,
            r.b.a == other.spec_into_failable_filter(),
    {
        FailableAnd::new(self, FailableNot::new(other.into_failable_filter()))
    }

    /// Helper to connect two failable filters via logical NAND.
    fn nand<F>(self, other: F) -> (r: FailableNot<FailableAnd<Self, F>>) where Self: Sized
        ensures
            r.a.a == self,
            r.a.b == other,
    {
        FailableNot::new(FailableAnd::new(self, other))
    }

    /// Helper to transform the input of a failable filter with a pure map.
    fn map_input<T, M: Fn(&T) -> N>(self, map: M) -> (r: FailableMapInput<Self, M, N>) where
        Self: Sized
        ensures
            r.f == self,
            r.m == map,
    {
        FailableMapInput::new(self, map)
    }

    /// Helper to transform the error of a failable filter with a pure map.
    fn map_err<M: Fn(Self::Error) -> OE, OE>(self, map: M) -> (r: FailableMapErr<Self, M, OE>)
        where Self: Sized
        ensures
            r.f == self,
            r.m == map,
    {
        FailableMapErr::new(self, map)
    }
}

/// Error propagation: for all failable filters `a`, `b` and every input `x`
/// on which `a` fails, both the conjunction and the disjunction combinator
/// return `a`'s error, and the boolean outcome of `b` plays no part.
pub proof fn lemma_error_propagates<N, E, A, B>(a: A, b: B, x: N) where
    A: FailableFilter<N, Error = E>,
    B: FailableFilter<N, Error = E>,

    requires
        a.eval(x) is Err,
    ensures
        (FailableAnd { a: a, b: b }).eval(x) == a.eval(x),
        (FailableOr { a: a, b: b }).eval(x) == a.eval(x),
{
}

/// Purity: failable evaluation is a mathematical function of the predicate
/// tree and the input, so any two results that `filter` may return for the
/// same tree and the same input agree, however often it is called.
pub proof fn lemma_failable_evaluation_pure<N, E, A: FailableFilter<N, Error = E>>(
    a: A,
    x: N,
    r1: Result<bool, E>,
    r2: Result<bool, E>,
)
    requires
        r1 == a.eval(x),
        r2 == a.eval(x),
    ensures
        r1 == r2,
{
}

/// All closures that take a ref to something and return Result<bool, E> are
/// failable filters.
impl<I, E, T: Fn(&I) -> Result<bool, E>> FailableFilter<I> for T {
    type Error = E;

    #[verifier::inline]
    open spec fn wf(&self) -> bool {
        fn_total(*self) && fn_decisive(*self)
    }

    #[verifier::inline]
    open spec fn eval(&self, e: I) -> Result<bool, E> {
        fn_val(*self, e)
    }

    fn filter(&self, e: &I) -> (r: Result<bool, E>) {
        let r = (self)(e);
        proof {
            assert(call_ensures(*self, (e,), r));
        }
        r
    }
}

} // verus!
