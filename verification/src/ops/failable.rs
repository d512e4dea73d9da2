//! Filter -> FailableFilter bridge implementations.

use vstd::prelude::*;

use crate::failable::filter::FailableFilter;
use crate::filter::Filter;

verus! {

/// Owns an infallible filter and presents it in the failable universe with
/// the unit error type: evaluation always succeeds with the wrapped
/// boolean.
#[must_use]
#[derive(Clone)]
pub struct IntoFailable<F> {
    pub f: F,
}

impl<F> IntoFailable<F> {
    pub fn new(f: F) -> (r: IntoFailable<F>)
        ensures
            r.f == f,
    {
        IntoFailable { f }
    }
}

impl<N, F: Filter<N>> FailableFilter<N> for IntoFailable<F> {
    type Error = ();

    open spec fn wf(&self) -> bool {
        self.f.wf()
    }

    open spec fn eval(&self, e: N) -> Result<bool, ()> {
        Ok(self.f.eval(e))
    }

    fn filter(&self, e: &N) -> (r: Result<bool, ()>) {
        Ok(self.f.filter(e))
    }
}

/// Borrows an infallible filter and presents it in the failable universe
/// with the unit error type; the adapter cannot outlive the borrowed
/// filter.
#[must_use]
#[derive(Clone)]
pub struct AsFailable<'a, F> {
    pub f: &'a F,
}

impl<'a, F> AsFailable<'a, F> {
    pub fn new(f: &'a F) -> (r: AsFailable<'a, F>)
        ensures
            r.f == f,
    {
        AsFailable { f }
    }
}

impl<'a, N, F: Filter<N>> FailableFilter<N> for AsFailable<'a, F> {
    type Error = ();

    open spec fn wf(&self) -> bool {
        self.f.wf()
    }

    open spec fn eval(&self, e: N) -> Result<bool, ()> {
        Ok(self.f.eval(e))
    }

    fn filter(&self, e: &N) -> (r: Result<bool, ()>) {
        Ok(self.f.filter(e))
    }
}

} // verus!
