//! OR implementation.

use vstd::prelude::*;

use crate::filter::Filter;

verus! {

/// Disjunction of two filters: true exactly when either child is true.
/// Evaluation of the right child is skipped when the left child is true.
#[must_use]
#[derive(Clone)]
pub struct Or<T, U> {
    pub a: T,
    pub b: U,
}

impl<T, U> Or<T, U> {
    pub fn new(a: T, b: U) -> (r: Or<T, U>)
        ensures
            r.a == a,
            r.b == b,
    {
        Or { a, b }
    }
}

impl<N, T: Filter<N>, U: Filter<N>> Filter<N> for Or<T, U> {
    open spec fn wf(&self) -> bool {
        self.a.wf() && self.b.wf()
    }

    open spec fn eval(&self, e: N) -> bool {
        self.a.eval(e) || self.b.eval(e)
    }

    fn filter(&self, e: &N) -> (r: bool) {
        self.a.filter(e) || self.b.filter(e)
    }
}

} // verus!
