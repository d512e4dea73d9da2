//! XOR implementation.

use vstd::prelude::*;

use crate::filter::Filter;

verus! {

/// Exclusive disjunction of two filters: true exactly when the children
/// disagree. Both children are always evaluated.
#[must_use]
#[derive(Clone)]
pub struct XOr<T, U> {
    pub a: T,
    pub b: U,
}

impl<T, U> XOr<T, U> {
    pub fn new(a: T, b: U) -> (r: XOr<T, U>)
        ensures
            r.a == a,
            r.b == b,
    {
        XOr { a, b }
    }
}

impl<N, T: Filter<N>, U: Filter<N>> Filter<N> for XOr<T, U> {
    open spec fn wf(&self) -> bool {
        self.a.wf() && self.b.wf()
    }

    open spec fn eval(&self, e: N) -> bool {
        self.a.eval(e) != self.b.eval(e)
    }

    fn filter(&self, e: &N) -> (r: bool) {
        self.a.filter(e) ^ self.b.filter(e)
    }
}

} // verus!
