//! NOT implementation.

use vstd::prelude::*;

use crate::filter::Filter;

verus! {

/// Negation of a filter: true exactly when the child is false.
#[must_use]
#[derive(Clone)]
pub struct Not<T> {
    pub a: T,
}

impl<T> Not<T> {
    pub fn new(a: T) -> (r: Not<T>)
        ensures
            r.a == a,
    {
        Not { a }
    }
}

impl<N, T: Filter<N>> Filter<N> for Not<T> {
    open spec fn wf(&self) -> bool {
        self.a.wf()
    }

    open spec fn eval(&self, e: N) -> bool {
        !self.a.eval(e)
    }

    fn filter(&self, e: &N) -> (r: bool) {
        !self.a.filter(e)
    }
}

} // verus!
