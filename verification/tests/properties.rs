use std::cell::Cell;

use filters::failable::filter::FailableFilter;
use filters::failable::ops::FailableBool;
use filters::filter::Filter;
use filters::iter::FilterErr;
use filters::iter::FilterOks;
use filters::iter::FilterWith;
use filters::ops::bool::Bool;
use filters::ops::failable::AsFailable;

#[derive(Debug, PartialEq)]
struct StubError {}

#[test]
fn and_is_conjunction() {
    let c = (|&n: &usize| n > 2).and(|&n: &usize| n < 5);

    assert_eq!(c.filter(&2), false);
    assert_eq!(c.filter(&3), true);
    assert_eq!(c.filter(&4), true);
    assert_eq!(c.filter(&5), false);
}

#[test]
fn and_short_circuits() {
    let count = Cell::new(0usize);
    let a = |_: &usize| false;
    let b = |_: &usize| {
        count.set(count.get() + 1);
        true
    };

    let c = a.and(b);

    assert_eq!(c.filter(&1), false);
    assert_eq!(count.get(), 0);
}

#[test]
fn or_is_disjunction() {
    let c = (|&n: &usize| n == 1).or(|&n: &usize| n == 2);

    assert_eq!(c.filter(&1), true);
    assert_eq!(c.filter(&2), true);
    assert_eq!(c.filter(&3), false);
}

#[test]
fn or_short_circuits() {
    let count = Cell::new(0usize);
    let a = |_: &usize| true;
    let b = |_: &usize| {
        count.set(count.get() + 1);
        false
    };

    let c = a.or(b);

    assert_eq!(c.filter(&1), true);
    assert_eq!(count.get(), 0);
}

#[test]
fn double_negation_is_identity() {
    let base = |&n: &usize| n > 5;
    let twice = (|&n: &usize| n > 5).not().not();

    for n in [0usize, 5, 6, 100] {
        assert_eq!(twice.filter(&n), base.filter(&n));
    }
}

#[test]
fn xor_evaluates_both_sides() {
    let left = Cell::new(0usize);
    let right = Cell::new(0usize);
    let a = |_: &usize| {
        left.set(left.get() + 1);
        true
    };
    let b = |_: &usize| {
        right.set(right.get() + 1);
        true
    };

    let c = a.xor(b);

    assert_eq!(c.filter(&1), false);
    assert_eq!(left.get(), 1);
    assert_eq!(right.get(), 1);
}

#[test]
fn nand_and_nor() {
    let gt = |&n: &usize| n > 10;
    let lt = |&n: &usize| n < 20;
    let nand = gt.nand(lt);

    assert_eq!(nand.filter(&15), false);
    assert_eq!(nand.filter(&25), true);
    assert_eq!(nand.filter(&5), true);

    let one = |&n: &usize| n == 1;
    let two = |&n: &usize| n == 2;
    let nor = one.nor(two);

    assert_eq!(nor.filter(&1), false);
    assert_eq!(nor.filter(&2), false);
    assert_eq!(nor.filter(&3), true);
}

#[test]
fn or_not_keeps_left_or_negated_right() {
    let one = |&n: &usize| n == 1;
    let c = one.or_not(|&n: &usize| n == 2);

    assert_eq!(c.filter(&1), true);
    assert_eq!(c.filter(&2), false);
    assert_eq!(c.filter(&7), true);
}

#[test]
fn and3_is_threefold_conjunction() {
    let d = (|&n: &usize| n > 1).and3(|&n: &usize| n < 20, |&n: &usize| n % 2 == 0);

    assert_eq!(d.filter(&1), false);
    assert_eq!(d.filter(&3), false);
    assert_eq!(d.filter(&8), true);
    assert_eq!(d.filter(&10), true);
    assert_eq!(d.filter(&15), false);
}

#[test]
fn or3_scenario() {
    let a = |&n: &usize| n == 1;
    let b = |&n: &usize| n == 2;
    let d = a.or3(b, |&n: &usize| n == 3);

    assert_eq!(d.filter(&1), true);
    assert_eq!(d.filter(&2), true);
    assert_eq!(d.filter(&3), true);
    assert_eq!(d.filter(&4), false);
}

#[test]
fn and_not_or_scenario() {
    let a = |&n: &usize| n > 5;
    let b = |&n: &usize| n < 20;
    let c = a.and_not(b).or(|&n: &usize| n == 10);

    assert_eq!(c.filter(&5), false);
    assert_eq!(c.filter(&10), true);
    assert_eq!(c.filter(&11), false);
    assert_eq!(c.filter(&21), true);
}

#[test]
fn map_input_transforms_the_input() {
    let a = |&a: &usize| a > 1;
    let b = (|&a: &i64| a < 7).map_input(|&x: &usize| x as i64);
    let c = a.and(b);

    assert_eq!(c.filter(&1), false);
    assert_eq!(c.filter(&3), true);
    assert_eq!(c.filter(&6), true);
    assert_eq!(c.filter(&9), false);
}

#[test]
fn bool_ignores_its_input() {
    let t = Bool::from(true);
    let f = Bool::from(false);

    assert_eq!(t.filter(&0usize), true);
    assert_eq!(t.filter(&17usize), true);
    assert_eq!(f.filter(&0usize), false);
    assert_eq!(f.filter(&17usize), false);
}

#[test]
fn repeated_evaluation_is_stable() {
    let c = (|&n: &usize| n % 2 == 0).xor(|&n: &usize| n > 10);
    let first = c.filter(&4);

    assert_eq!(c.filter(&4), first);
    assert_eq!(c.filter(&4), first);
    assert_eq!(c.filter(&4), first);
}

#[test]
fn failable_and_propagates_error_without_right() {
    let count = Cell::new(0usize);
    let a = |_: &usize| -> Result<bool, StubError> { Err(StubError {}) };
    let b = |_: &usize| -> Result<bool, StubError> {
        count.set(count.get() + 1);
        Ok(true)
    };

    let c = a.and(b);

    assert_eq!(c.filter(&1), Err(StubError {}));
    assert_eq!(count.get(), 0);
}

#[test]
fn failable_or_propagates_error_without_right() {
    let count = Cell::new(0usize);
    let a = |_: &usize| -> Result<bool, StubError> { Err(StubError {}) };
    let b = |_: &usize| -> Result<bool, StubError> {
        count.set(count.get() + 1);
        Ok(true)
    };

    let c = a.or(b);

    assert_eq!(c.filter(&1), Err(StubError {}));
    assert_eq!(count.get(), 0);
}

#[test]
fn failable_xor_is_left_to_right() {
    let count = Cell::new(0usize);
    let a = |_: &usize| -> Result<bool, StubError> { Err(StubError {}) };
    let b = |_: &usize| -> Result<bool, StubError> {
        count.set(count.get() + 1);
        Ok(true)
    };

    let c = a.xor(b);

    assert_eq!(c.filter(&1), Err(StubError {}));
    assert_eq!(count.get(), 0);
}

#[test]
fn failable_not_inverts_success() {
    let a = |&n: &usize| -> Result<bool, StubError> { Ok(n == 1) };
    let c = a.not();

    assert_eq!(c.filter(&1), Ok(false));
    assert_eq!(c.filter(&2), Ok(true));
}

#[test]
fn failable_combinators_mirror_boolean_algebra() {
    let a = |&n: &usize| -> Result<bool, StubError> { Ok(n > 3) };
    let b = |&n: &usize| -> Result<bool, StubError> { Ok(n < 7) };
    let c = a.xor(b);

    assert_eq!(c.filter(&1), Ok(true));
    assert_eq!(c.filter(&4), Ok(false));
    assert_eq!(c.filter(&9), Ok(true));
}

#[test]
fn failable_or3_and_and3() {
    let d = (|&n: &usize| -> Result<bool, StubError> { Ok(n == 1) })
        .or3(
            |&n: &usize| -> Result<bool, StubError> { Ok(n == 2) },
            |&n: &usize| -> Result<bool, StubError> { Ok(n == 3) },
        );

    assert_eq!(d.filter(&2), Ok(true));
    assert_eq!(d.filter(&4), Ok(false));

    let e = (|&n: &usize| -> Result<bool, StubError> { Ok(n > 1) })
        .and3(
            |&n: &usize| -> Result<bool, StubError> { Ok(n < 20) },
            |&n: &usize| -> Result<bool, StubError> { Ok(n % 2 == 0) },
        );

    assert_eq!(e.filter(&8), Ok(true));
    assert_eq!(e.filter(&15), Ok(false));
}

#[test]
fn failable_nand_nor_or_not_and_not() {
    let gt = |&n: &usize| -> Result<bool, StubError> { Ok(n > 10) };
    let lt = |&n: &usize| -> Result<bool, StubError> { Ok(n < 20) };

    assert_eq!(gt.nand(lt).filter(&15), Ok(false));

    let gt = |&n: &usize| -> Result<bool, StubError> { Ok(n > 10) };
    let lt = |&n: &usize| -> Result<bool, StubError> { Ok(n < 20) };

    assert_eq!(gt.nor(lt).filter(&15), Ok(false));

    let gt = |&n: &usize| -> Result<bool, StubError> { Ok(n > 10) };
    let lt = |&n: &usize| -> Result<bool, StubError> { Ok(n < 20) };

    assert_eq!(gt.and_not(lt).filter(&25), Ok(true));

    let gt = |&n: &usize| -> Result<bool, StubError> { Ok(n > 10) };
    let lt = |&n: &usize| -> Result<bool, StubError> { Ok(n < 20) };

    assert_eq!(gt.or_not(lt).filter(&25), Ok(true));
}

#[test]
fn failable_map_input_and_map_err() {
    let a = (|&a: &i64| -> Result<bool, StubError> { Ok(a < 7) })
        .map_input(|&x: &usize| x as i64);

    assert_eq!(a.filter(&3), Ok(true));
    assert_eq!(a.filter(&9), Ok(false));

    let b = (|&a: &usize| -> Result<bool, ()> { if a == 0 { Err(()) } else { Ok(a < 7) } })
        .map_err(|_: ()| StubError {});

    assert_eq!(b.filter(&3), Ok(true));
    assert_eq!(b.filter(&0), Err(StubError {}));
}

#[test]
fn failable_bool_always_succeeds() {
    let t = FailableBool::from(true);

    assert_eq!(FailableFilter::<usize>::filter(&t, &0), Ok(true));
    assert_eq!(FailableFilter::<usize>::filter(&t, &9), Ok(true));

    let f = FailableBool::new(false);

    assert_eq!(FailableFilter::<usize>::filter(&f, &9), Ok(false));
}

#[test]
fn into_failable_never_fails() {
    let a = (|&a: &usize| a > 5).into_failable();

    assert_eq!(a.filter(&3), Ok(false));
    assert_eq!(a.filter(&5), Ok(false));
    assert_eq!(a.filter(&7), Ok(true));
    assert_eq!(a.filter(&9), Ok(true));
}

#[test]
fn as_failable_borrows_the_filter() {
    let a = |&a: &usize| a > 5;
    let c = AsFailable::new(&a);

    assert_eq!(c.filter(&3), Ok(false));
    assert_eq!(c.filter(&7), Ok(true));
    assert_eq!(a.filter(&7), true);
}

#[test]
fn filter_range_scenario() {
    let v: Vec<usize> = (1..=10).collect();
    let r: Vec<usize> = v.filter_with(|&n: &usize| n > 5).collect();

    assert_eq!(r, vec![6, 7, 8, 9, 10]);
}

#[test]
fn filter_oks_scenario() {
    let v: Vec<Result<usize, usize>> = vec![Ok(1), Err(2), Ok(3), Err(4)];
    let r: Vec<Result<usize, usize>> = v.filter_oks(|&n: &usize| n > 1).collect();

    assert_eq!(r, vec![Err(2), Ok(3), Err(4)]);
}

#[test]
fn filter_oks_never_tests_errors() {
    let count = Cell::new(0usize);
    let f = |_: &u64| {
        count.set(count.get() + 1);
        true
    };

    let v: Vec<Result<u64, u64>> = vec![Err(1), Err(2), Err(3)];
    let r: Vec<Result<u64, u64>> = v.filter_oks(f).collect();

    assert_eq!(r, vec![Err(1), Err(2), Err(3)]);
    assert_eq!(count.get(), 0);
}

#[test]
fn filter_errs_never_tests_oks() {
    let count = Cell::new(0usize);
    let f = |_: &u64| {
        count.set(count.get() + 1);
        true
    };

    let v: Vec<Result<u64, u64>> = vec![Ok(1), Ok(2), Ok(3)];
    let r: Vec<Result<u64, u64>> = v.filter_errs(f).collect();

    assert_eq!(r, vec![Ok(1), Ok(2), Ok(3)]);
    assert_eq!(count.get(), 0);
}
