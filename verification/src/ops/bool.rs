//! Bool filter implementation, so plain booleans can be spliced into filter
//! construction.

use vstd::prelude::*;

use crate::filter::Filter;

verus! {

/// A constant filter: ignores its input and returns the stored boolean.
#[must_use]
#[derive(Clone)]
pub struct Bool {
    pub b: bool,
}

impl Bool {
    pub fn new(b: bool) -> (r: Bool)
        ensures
            r.b == b,
    {
        Bool { b }
    }
}

impl From<bool> for Bool {
    fn from(b: bool) -> (r: Bool) {
        Bool::new(b)
    }
}

impl vstd::std_specs::convert::FromSpecImpl<bool> for Bool {
    open spec fn obeys_from_spec() -> bool {
        true
    }

    open spec fn from_spec(b: bool) -> Bool {
        Bool { b }
    }
}

impl<N> Filter<N> for Bool {
    open spec fn wf(&self) -> bool {
        true
    }

    open spec fn eval(&self, e: N) -> bool {
        self.b
    }

    fn filter(&self, e: &N) -> (r: bool) {
        self.b
    }
}

} // verus!
