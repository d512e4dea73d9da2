//! AND implementation.

use vstd::prelude::*;

use crate::filter::Filter;

verus! {

/// Conjunction of two filters: true exactly when both children are true.
/// Evaluation of the right child is skipped when the left child is false.
#[must_use]
#[derive(Clone)]
pub struct And<T, U> {
    pub a: T,
    pub b: U,
}

impl<T, U> And<T, U> {
    pub fn new(a: T, b: U) -> (r: And<T, U>)
        ensures
            r.a == a,
            r.b == b,
    {
        And { a, b }
    }
}

impl<N, T: Filter<N>, U: Filter<N>> Filter<N> for And<T, U> {
    open spec fn wf(&self) -> bool {
        self.a.wf() && self.b.wf()
    }

    open spec fn eval(&self, e: N) -> bool {
        self.a.eval(e) && self.b.eval(e)
    }

    fn filter(&self, e: &N) -> (r: bool) {
        self.a.filter(e) && self.b.filter(e)
    }
}

} // verus!
