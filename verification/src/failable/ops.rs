//! The combinator nodes of the failable filter universe.
//!
//! Every combinator propagates the first error met along the left-to-right,
//! short-circuit-aware evaluation path, before any boolean short-circuit is
//! taken.

use core::marker::PhantomData;

use vstd::prelude::*;

use crate::failable::filter::FailableFilter;
use crate::filter::fn_decisive;
use crate::filter::fn_decisive_owned;
use crate::filter::fn_total;
use crate::filter::fn_total_owned;
use crate::filter::fn_val;
use crate::filter::fn_val_owned;

verus! {

/// Conjunction of two failable filters. An error of the left child is
/// returned at once; a left `Ok(false)` skips the right child.
#[must_use]
#[derive(Clone)]
pub struct FailableAnd<T, U> {
    pub a: T,
    pub b: U,
}

impl<T, U> FailableAnd<T, U> {
    pub fn new(a: T, b: U) -> (r: FailableAnd<T, U>)
        ensures
            r.a == a,
            r.b == b,
    {
        FailableAnd { a, b }
    }
}

impl<N, E, T, U> FailableFilter<N> for FailableAnd<T, U> where
    T: FailableFilter<N, Error = E>,
    U: FailableFilter<N, Error = E>,
 {
    type Error = E;

    open spec fn wf(&self) -> bool {
        self.a.wf() && self.b.wf()
    }

    open spec fn eval(&self, e: N) -> Result<bool, E> {
        match self.a.eval(e) {
            Err(er) => Err(er),
            Ok(b1) => if !b1 {
                Ok(false)
            } else {
                self.b.eval(e)
            },
        }
    }

    fn filter(&self, e: &N) -> (r: Result<bool, E>) {
        match self.a.filter(e) {
            Err(er) => Err(er),
            Ok(b1) => if !b1 {
                Ok(false)
            } else {
                self.b.filter(e)
            },
        }
    }
}

/// Disjunction of two failable filters. An error of the left child is
/// returned at once; a left `Ok(true)` skips the right child.
#[must_use]
#[derive(Clone)]
pub struct FailableOr<T, U> {
    pub a: T,
    pub b: U,
}

impl<T, U> FailableOr<T, U> {
    pub fn new(a: T, b: U) -> (r: FailableOr<T, U>)
        ensures
            r.a == a,
            r.b == b,
    {
        FailableOr { a, b }
    }
}

impl<N, E, T, U> FailableFilter<N> for FailableOr<T, U> where
    T: FailableFilter<N, Error = E>,
    U: FailableFilter<N, Error = E>,
 {
    type Error = E;

    open spec fn wf(&self) -> bool {
        self.a.wf() && self.b.wf()
    }

    open spec fn eval(&self, e: N) -> Result<bool, E> {
        match self.a.eval(e) {
            Err(er) => Err(er),
            Ok(b1) => if b1 {
                Ok(true)
            } else {
                self.b.eval(e)
            },
        }
    }

    fn filter(&self, e: &N) -> (r: Result<bool, E>) {
        match self.a.filter(e) {
            Err(er) => Err(er),
            Ok(b1) => if b1 {
                Ok(true)
            } else {
                self.b.filter(e)
            },
        }
    }
}

/// Negation of a failable filter: an error is propagated, a boolean is
/// inverted.
#[must_use]
#[derive(Clone)]
pub struct FailableNot<T> {
    pub a: T,
}

impl<T> FailableNot<T> {
    pub fn new(a: T) -> (r: FailableNot<T>)
        ensures
            r.a == a,
    {
        FailableNot { a }
    }
}

impl<N, E, T: FailableFilter<N, Error = E>> FailableFilter<N> for FailableNot<T> {
    type Error = E;

    open spec fn wf(&self) -> bool {
        self.a.wf()
    }

    open spec fn eval(&self, e: N) -> Result<bool, E> {
        match self.a.eval(e) {
            Err(er) => Err(er),
            Ok(b) => Ok(!b),
        }
    }

    fn filter(&self, e: &N) -> (r: Result<bool, E>) {
        match self.a.filter(e) {
            Err(er) => Err(er),
            Ok(b) => Ok(!b),
        }
    }
}

/// Exclusive disjunction of two failable filters, evaluated strictly left to
/// right: an error of the left child is returned without evaluating the
/// right one, then an error of the right child is returned, and otherwise
/// the booleans are compared.
#[must_use]
#[derive(Clone)]
pub struct FailableXOr<T, U> {
    pub a: T,
    pub b: U,
}

impl<T, U> FailableXOr<T, U> {
    pub fn new(a: T, b: U) -> (r: FailableXOr<T, U>)
        ensures
            r.a == a,
            r.b == b,
    {
        FailableXOr { a, b }
    }
}

impl<N, E, T, U> FailableFilter<N> for FailableXOr<T, U> where
    T: FailableFilter<N, Error = E>,
    U: FailableFilter<N, Error = E>,
 {
    type Error = E;

    open spec fn wf(&self) -> bool {
        self.a.wf() && self.b.wf()
    }

    open spec fn eval(&self, e: N) -> Result<bool, E> {
        match self.a.eval(e) {
            Err(er) => Err(er),
            Ok(b1) => match self.b.eval(e) {
                Err(er) => Err(er),
                Ok(b2) => Ok(b1 != b2),
            },
        }
    }

    fn filter(&self, e: &N) -> (r: Result<bool, E>) {
        match self.a.filter(e) {
            Err(er) => Err(er),
            Ok(b1) => match self.b.filter(e) {
                Err(er) => Err(er),
                Ok(b2) => Ok(b1 ^ b2),
            },
        }
    }
}

/// A constant failable filter: ignores its input, never fails and returns
/// the stored boolean.
#[must_use]
#[derive(Clone)]
pub struct FailableBool {
    pub b: bool,
}

impl FailableBool {
    pub fn new(b: bool) -> (r: FailableBool)
        ensures
            r.b == b,
    {
        FailableBool { b }
    }
}

impl From<bool> for FailableBool {
    fn from(b: bool) -> (r: FailableBool) {
        FailableBool::new(b)
    }
}

impl vstd::std_specs::convert::FromSpecImpl<bool> for FailableBool {
    open spec fn obeys_from_spec() -> bool {
        true
    }

    open spec fn from_spec(b: bool) -> FailableBool {
        FailableBool { b }
    }
}

impl<N> FailableFilter<N> for FailableBool {
    type Error = ();

    open spec fn wf(&self) -> bool {
        true
    }

    open spec fn eval(&self, e: N) -> Result<bool, ()> {
        Ok(self.b)
    }

    fn filter(&self, e: &N) -> (r: Result<bool, ()>) {
        Ok(self.b)
    }
}

/// Presents a failable filter over `N` as one over `T`, by applying the
/// pure transform `m: T -> N` to the input first. Errors of the child pass
/// through unchanged.
#[must_use]
pub struct FailableMapInput<F, M, N> {
    pub f: F,
    pub m: M,
    pub marker: PhantomData<N>,
}

impl<F, M, N> FailableMapInput<F, M, N> {
    pub fn new(f: F, m: M) -> (r: FailableMapInput<F, M, N>)
        ensures
            r.f == f,
            r.m == m,
    {
        FailableMapInput { f, m, marker: PhantomData }
    }
}

impl<T, N, E, F: FailableFilter<N, Error = E>, M: Fn(&T) -> N> FailableFilter<T> for FailableMapInput<F, M, N> {
    type Error = E;

    open spec fn wf(&self) -> bool {
        self.f.wf() && fn_total(self.m) && fn_decisive(self.m)
    }

    open spec fn eval(&self, e: T) -> Result<bool, E> {
        self.f.eval(fn_val(self.m, e))
    }

    fn filter(&self, e: &T) -> (r: Result<bool, E>) {
        let u = (self.m)(e);
        proof {
            assert(call_ensures(self.m, (e,), u));
        }
        self.f.filter(&u)
    }
}

/// Presents a failable filter with error type `E1` as one with error type
/// `E`, by applying the pure transform `m: E1 -> E` on the error path only.
/// Successful booleans pass through unchanged.
#[must_use]
pub struct FailableMapErr<F, M, E> {
    pub f: F,
    pub m: M,
    pub marker: PhantomData<E>,
}

impl<F, M, E> FailableMapErr<F, M, E> {
    pub fn new(f: F, m: M) -> (r: FailableMapErr<F, M, E>)
        ensures
            r.f == f,
            r.m == m,
    {
        FailableMapErr { f, m, marker: PhantomData }
    }
}

impl<T, E1, E, F: FailableFilter<T, Error = E1>, M: Fn(E1) -> E> FailableFilter<T> for FailableMapErr<
    F,
    M,
    E,
> {
    type Error = E;

    open spec fn wf(&self) -> bool {
        self.f.wf() && fn_total_owned(self.m) && fn_decisive_owned(self.m)
    }

    open spec fn eval(&self, e: T) -> Result<bool, E> {
        match self.f.eval(e) {
            Ok(b) => Ok(b),
            Err(e1) => Err(fn_val_owned(self.m, e1)),
        }
    }

    fn filter(&self, e: &T) -> (r: Result<bool, E>) {
        match self.f.filter(e) {
            Ok(b) => Ok(b),
            Err(e1) => {
                let ghost g1 = e1;
                let e2 = (self.m)(e1);
                proof {
                    assert(call_ensures(self.m, (g1,), e2));
                }
                Err(e2)
            },
        }
    }
}

} // verus!
