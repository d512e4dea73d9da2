//! Sequence filtering: applying a filter to the elements of a vector, to
//! the success payloads of a vector of results, or to the error payloads.

use vstd::prelude::*;

use crate::filter::Filter;

verus! {

/// The subsequence of `s` whose elements satisfy `f`, in source order.
pub open spec fn filtered<T, F: Filter<T>>(f: F, s: Seq<T>) -> Seq<T>
    decreases s.len(),
{
    if s.len() == 0 {
        Seq::empty()
    } else {
        let rest = filtered(f, s.subrange(1, s.len() as int));
        if f.eval(s[0]) {
            seq![s[0]] + rest
        } else {
            rest
        }
    }
}

/// Whether a result element passes a filter applied to success payloads:
/// errors always pass, without the filter being consulted.
pub open spec fn ok_passes<T, E, F: Filter<T>>(f: F, x: Result<T, E>) -> bool {
    match x {
        Ok(t) => f.eval(t),
        Err(_) => true,
    }
}

/// The subsequence of `s` that remains when the success payloads are
/// filtered by `f` and every error passes through, in source order.
pub open spec fn filtered_oks<T, E, F: Filter<T>>(f: F, s: Seq<Result<T, E>>) -> Seq<
    Result<T, E>,
>
    decreases s.len(),
{
    if s.len() == 0 {
        Seq::empty()
    } else {
        let rest = filtered_oks(f, s.subrange(1, s.len() as int));
        if ok_passes(f, s[0]) {
            seq![s[0]] + rest
        } else {
            rest
        }
    }
}

/// Whether a result element passes a filter applied to error payloads:
/// successes always pass, without the filter being consulted.
pub open spec fn err_passes<T, E, F: Filter<E>>(f: F, x: Result<T, E>) -> bool {
    match x {
        Ok(_) => true,
        Err(e) => f.eval(e),
    }
}

/// The subsequence of `s` that remains when the error payloads are filtered
/// by `f` and every success passes through, in source order.
pub open spec fn filtered_errs<T, E, F: Filter<E>>(f: F, s: Seq<Result<T, E>>) -> Seq<
    Result<T, E>,
>
    decreases s.len(),
{
    if s.len() == 0 {
        Seq::empty()
    } else {
        let rest = filtered_errs(f, s.subrange(1, s.len() as int));
        if err_passes(f, s[0]) {
            seq![s[0]] + rest
        } else {
            rest
        }
    }
}

/// Yields the elements of a source vector that satisfy a filter, in source
/// order, pulling from the source and re-testing until a match or
/// exhaustion on every pull.
#[must_use]
pub struct FilteredIterator<T, F> {
    pub f: F,
    pub rest: Vec<T>,
}

impl<T, F: Filter<T>> FilteredIterator<T, F> {
    /// Pulls source elements until one satisfies the filter and returns it,
    /// or exhausts the source and returns None.
    pub fn next(&mut self) -> (r: Option<T>)
        requires
            old(self).f.wf(),
        ensures
            final(self).f == old(self).f,
            match r {
                Some(t) => exists|i: int|
                    {
                        &&& 0 <= i < old(self).rest@.len()
                        &&& t == old(self).rest@[i]
                        &&& #[trigger] old(self).f.eval(old(self).rest@[i])
                        &&& final(self).rest@ == old(self).rest@.subrange(
                            i + 1,
                            old(self).rest@.len() as int,
                        )
                        &&& forall|j: int|
                            0 <= j < i ==> !(#[trigger] old(self).f.eval(old(self).rest@[j]))
                    },
                None => {
                    &&& final(self).rest@.len() == 0
                    &&& forall|j: int|
                        0 <= j < old(self).rest@.len() ==> !(#[trigger] old(self).f.eval(
                            old(self).rest@[j],
                        ))
                },
            },
    {
        let ghost s0 = self.rest@;
        let ghost mut taken: int = 0;
        while self.rest.len() > 0
            invariant
                self.f.wf(),
                self.f == old(self).f,
                s0 == old(self).rest@,
                0 <= taken <= s0.len(),
                self.rest@ == s0.subrange(taken, s0.len() as int),
                forall|j: int| 0 <= j < taken ==> !(#[trigger] self.f.eval(s0[j])),
            decreases self.rest.len(),
        {
            let t = self.rest.remove(0);
            proof {
                assert(t == s0[taken]);
                assert(self.rest@ =~= s0.subrange(taken + 1, s0.len() as int));
            }
            if self.f.filter(&t) {
                proof {
                    assert(old(self).f.eval(old(self).rest@[taken]));
                }
                return Some(t);
            }
            proof {
                taken = taken + 1;
            }
        }
        None
    }

    /// Pulls every remaining source element and returns those that satisfy
    /// the filter, in source order.
    pub fn collect(self) -> (r: Vec<T>)
        requires
            self.f.wf(),
        ensures
            r@ == filtered(self.f, self.rest@),
    {
        let FilteredIterator { f, mut rest } = self;
        let ghost s0 = rest@;
        let mut out: Vec<T> = Vec::new();
        while rest.len() > 0
            invariant
                f.wf(),
                out@ + filtered(f, rest@) == filtered(f, s0),
            decreases rest.len(),
        {
            let ghost before = rest@;
            let t = rest.remove(0);
            proof {
                assert(t == before[0]);
                assert(rest@ =~= before.subrange(1, before.len() as int));
            }
            if f.filter(&t) {
                out.push(t);
                proof {
                    assert(filtered(f, before) == seq![t] + filtered(f, rest@));
                    assert(out@ + filtered(f, rest@) =~= filtered(f, s0));
                }
            } else {
                proof {
                    assert(filtered(f, before) == filtered(f, rest@));
                }
            }
        }
        proof {
            assert(out@ =~= filtered(f, s0));
        }
        out
    }
}

/// Trait that offers filtering a vector of elements with a filter.
pub trait FilterWith<T, F: Filter<T>>: Sized {
    /// The elements that filtering will draw from, in order.
    spec fn spec_source(self) -> Seq<T>;

    fn filter_with(self, f: F) -> (r: FilteredIterator<T, F>)
        ensures
            r.f == f,
            r.rest@ == self.spec_source(),
    ;
}

impl<T, F: Filter<T>> FilterWith<T, F> for Vec<T> {
    open spec fn spec_source(self) -> Seq<T> {
        self@
    }

    fn filter_with(self, f: F) -> (r: FilteredIterator<T, F>) {
        FilteredIterator { f, rest: self }
    }
}

/// Yields the elements of a source vector of results, passing every error
/// through unchanged and keeping exactly the successes whose payload
/// satisfies the filter, in source order.
#[must_use]
pub struct FilterOksIter<T, E, F> {
    pub f: F,
    pub rest: Vec<Result<T, E>>,
}

impl<T, E, F: Filter<T>> FilterOksIter<T, E, F> {
    /// Pulls source elements until one is an error or a success whose
    /// payload satisfies the filter and returns it, or exhausts the source
    /// and returns None.
    pub fn next(&mut self) -> (r: Option<Result<T, E>>)
        requires
            old(self).f.wf(),
        ensures
            final(self).f == old(self).f,
            match r {
                Some(x) => exists|i: int|
                    {
                        &&& 0 <= i < old(self).rest@.len()
                        &&& x == old(self).rest@[i]
                        &&& #[trigger] ok_passes(old(self).f, old(self).rest@[i])
                        &&& final(self).rest@ == old(self).rest@.subrange(
                            i + 1,
                            old(self).rest@.len() as int,
                        )
                        &&& forall|j: int|
                            0 <= j < i ==> !(#[trigger] ok_passes(old(self).f, old(self).rest@[j]))
                    },
                None => {
                    &&& final(self).rest@.len() == 0
                    &&& forall|j: int|
                        0 <= j < old(self).rest@.len() ==> !(#[trigger] ok_passes(
                            old(self).f,
                            old(self).rest@[j],
                        ))
                },
            },
    {
        let ghost s0 = self.rest@;
        let ghost mut taken: int = 0;
        while self.rest.len() > 0
            invariant
                self.f.wf(),
                self.f == old(self).f,
                s0 == old(self).rest@,
                0 <= taken <= s0.len(),
                self.rest@ == s0.subrange(taken, s0.len() as int),
                forall|j: int| 0 <= j < taken ==> !(#[trigger] ok_passes(self.f, s0[j])),
            decreases self.rest.len(),
        {
            let x = self.rest.remove(0);
            proof {
                assert(x == s0[taken]);
                assert(self.rest@ =~= s0.subrange(taken + 1, s0.len() as int));
            }
            match x {
                Err(e) => {
                    proof {
                        assert(ok_passes(old(self).f, old(self).rest@[taken]));
                    }
                    return Some(Err(e));
                },
                Ok(t) => {
                    if self.f.filter(&t) {
                        proof {
                            assert(ok_passes(old(self).f, old(self).rest@[taken]));
                        }
                        return Some(Ok(t));
                    }
                },
            }
            proof {
                taken = taken + 1;
            }
        }
        None
    }

    /// Pulls every remaining source element and returns the errors together
    /// with the successes whose payload satisfies the filter, in source
    /// order.
    pub fn collect(self) -> (r: Vec<Result<T, E>>)
        requires
            self.f.wf(),
        ensures
            r@ == filtered_oks(self.f, self.rest@),
    {
        let FilterOksIter { f, mut rest } = self;
        let ghost s0 = rest@;
        let mut out: Vec<Result<T, E>> = Vec::new();
        while rest.len() > 0
            invariant
                f.wf(),
                out@ + filtered_oks(f, rest@) == filtered_oks(f, s0),
            decreases rest.len(),
        {
            let ghost before = rest@;
            let x = rest.remove(0);
            proof {
                assert(x == before[0]);
                assert(rest@ =~= before.subrange(1, before.len() as int));
            }
            let keep = match &x {
                Err(_) => true,
                Ok(t) => f.filter(t),
            };
            if keep {
                out.push(x);
                proof {
                    assert(filtered_oks(f, before) == seq![before[0]] + filtered_oks(f, rest@));
                    assert(out@ + filtered_oks(f, rest@) =~= filtered_oks(f, s0));
                }
            } else {
                proof {
                    assert(filtered_oks(f, before) == filtered_oks(f, rest@));
                }
            }
        }
        proof {
            assert(out@ =~= filtered_oks(f, s0));
        }
        out
    }
}

/// Trait that offers filtering the success payloads of a vector of results.
pub trait FilterOks<T, E, F: Filter<T>>: Sized {
    /// The elements that filtering will draw from, in order.
    spec fn spec_source(self) -> Seq<Result<T, E>>;

    fn filter_oks(self, f: F) -> (r: FilterOksIter<T, E, F>)
        ensures
            r.f == f,
            r.rest@ == self.spec_source(),
    ;
}

impl<T, E, F: Filter<T>> FilterOks<T, E, F> for Vec<Result<T, E>> {
    open spec fn spec_source(self) -> Seq<Result<T, E>> {
        self@
    }

    fn filter_oks(self, f: F) -> (r: FilterOksIter<T, E, F>) {
        FilterOksIter { f, rest: self }
    }
}

/// Yields the elements of a source vector of results, passing every success
/// through unchanged and keeping exactly the errors whose payload satisfies
/// the filter, in source order.
#[must_use]
pub struct FilterErrIter<T, E, F> {
    pub f: F,
    pub rest: Vec<Result<T, E>>,
}

impl<T, E, F: Filter<E>> FilterErrIter<T, E, F> {
    /// Pulls source elements until one is a success or an error whose
    /// payload satisfies the filter and returns it, or exhausts the source
    /// and returns None.
    pub fn next(&mut self) -> (r: Option<Result<T, E>>)
        requires
            old(self).f.wf(),
        ensures
            final(self).f == old(self).f,
            match r {
                Some(x) => exists|i: int|
                    {
                        &&& 0 <= i < old(self).rest@.len()
                        &&& x == old(self).rest@[i]
                        &&& #[trigger] err_passes(old(self).f, old(self).rest@[i])
                        &&& final(self).rest@ == old(self).rest@.subrange(
                            i + 1,
                            old(self).rest@.len() as int,
                        )
                        &&& forall|j: int|
                            0 <= j < i ==> !(#[trigger] err_passes(old(self).f, old(self).rest@[j]))
                    },
                None => {
                    &&& final(self).rest@.len() == 0
                    &&& forall|j: int|
                        0 <= j < old(self).rest@.len() ==> !(#[trigger] err_passes(
                            old(self).f,
                            old(self).rest@[j],
                        ))
                },
            },
    {
        let ghost s0 = self.rest@;
        let ghost mut taken: int = 0;
        while self.rest.len() > 0
            invariant
                self.f.wf(),
                self.f == old(self).f,
                s0 == old(self).rest@,
                0 <= taken <= s0.len(),
                self.rest@ == s0.subrange(taken, s0.len() as int),
                forall|j: int| 0 <= j < taken ==> !(#[trigger] err_passes(self.f, s0[j])),
            decreases self.rest.len(),
        {
            let x = self.rest.remove(0);
            proof {
                assert(x == s0[taken]);
                assert(self.rest@ =~= s0.subrange(taken + 1, s0.len() as int));
            }
            match x {
                Ok(t) => {
                    proof {
                        assert(err_passes(old(self).f, old(self).rest@[taken]));
                    }
                    return Some(Ok(t));
                },
                Err(e) => {
                    if self.f.filter(&e) {
                        proof {
                            assert(err_passes(old(self).f, old(self).rest@[taken]));
                        }
                        return Some(Err(e));
                    }
                },
            }
            proof {
                taken = taken + 1;
            }
        }
        None
    }

    /// Pulls every remaining source element and returns the successes
    /// together with the errors whose payload satisfies the filter, in
    /// source order.
    pub fn collect(self) -> (r: Vec<Result<T, E>>)
        requires
            self.f.wf(),
        ensures
            r@ == filtered_errs(self.f, self.rest@),
    {
        let FilterErrIter { f, mut rest } = self;
        let ghost s0 = rest@;
        let mut out: Vec<Result<T, E>> = Vec::new();
        while rest.len() > 0
            invariant
                f.wf(),
                out@ + filtered_errs(f, rest@) == filtered_errs(f, s0),
            decreases rest.len(),
        {
            let ghost before = rest@;
            let x = rest.remove(0);
            proof {
                assert(x == before[0]);
                assert(rest@ =~= before.subrange(1, before.len() as int));
            }
            let keep = match &x {
                Ok(_) => true,
                Err(e) => f.filter(e),
            };
            if keep {
                out.push(x);
                proof {
                    assert(filtered_errs(f, before) == seq![before[0]] + filtered_errs(f, rest@));
                    assert(out@ + filtered_errs(f, rest@) =~= filtered_errs(f, s0));
                }
            } else {
                proof {
                    assert(filtered_errs(f, before) == filtered_errs(f, rest@));
                }
            }
        }
        proof {
            assert(out@ =~= filtered_errs(f, s0));
        }
        out
    }
}

/// Trait that offers filtering the error payloads of a vector of results.
pub trait FilterErr<T, E, F: Filter<E>>: Sized {
    /// The elements that filtering will draw from, in order.
    spec fn spec_source(self) -> Seq<Result<T, E>>;

    fn filter_errs(self, f: F) -> (r: FilterErrIter<T, E, F>)
        ensures
            r.f == f,
            r.rest@ == self.spec_source(),
    ;
}

impl<T, E, F: Filter<E>> FilterErr<T, E, F> for Vec<Result<T, E>> {
    open spec fn spec_source(self) -> Seq<Result<T, E>> {
        self@
    }

    fn filter_errs(self, f: F) -> (r: FilterErrIter<T, E, F>) {
        FilterErrIter { f, rest: self }
    }
}

} // verus!
