//! Map implementation: reinterpret a filter over a derived type.

use core::marker::PhantomData;

use vstd::prelude::*;

use crate::filter::fn_decisive;
use crate::filter::fn_total;
use crate::filter::fn_val;
use crate::filter::Filter;

verus! {

/// Presents a filter over `N` as a filter over `T`, by applying the pure
/// transform `m: T -> N` to the input first.
#[must_use]
pub struct MapInput<F, M, N> {
    pub f: F,
    pub m: M,
    pub marker: PhantomData<N>,
}

impl<F, M, N> MapInput<F, M, N> {
    pub fn new(f: F, m: M) -> (r: MapInput<F, M, N>)
        ensures
            r.f == f,
            r.m == m,
    {
        MapInput { f, m, marker: PhantomData }
    }
}

impl<T, N, F: Filter<N>, M: Fn(&T) -> N> Filter<T> for MapInput<F, M, N> {
    open spec fn wf(&self) -> bool {
        self.f.wf() && fn_total(self.m) && fn_decisive(self.m)
    }

    open spec fn eval(&self, e: T) -> bool {
        self.f.eval(fn_val(self.m, e))
    }

    fn filter(&self, e: &T) -> (r: bool) {
        let u = (self.m)(e);
        proof {
            assert(call_ensures(self.m, (e,), u));
        }
        self.f.filter(&u)
    }
}

} // verus!
