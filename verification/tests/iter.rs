use filters::filter::Filter;
use filters::iter::FilterErr;
use filters::iter::FilterOks;
use filters::iter::FilterWith;

struct Foo;

impl Filter<u64> for Foo {
    fn filter(&self, u: &u64) -> bool {
        *u > 5
    }
}

#[test]
fn test_filter_with() {
    let f = Foo;

    let v: Vec<u64> = vec![1, 2, 3, 4, 5, 6, 7, 8, 9, 0].filter_with(f).collect();

    assert_eq!(v, vec![6, 7, 8, 9]);
}

#[test]
fn test_filter_oks() {
    let f = Foo;

    let v: Vec<Result<u64, u64>> = vec![
        Ok(1),
        Err(2),
        Ok(3),
        Err(4),
        Ok(5),
        Err(6),
        Ok(7),
        Err(8),
        Ok(9),
        Err(0),
    ]
    .filter_oks(f)
    .collect();

    assert_eq!(
        v,
        vec![Err(2), Err(4), Err(6), Ok(7), Err(8), Ok(9), Err(0)]
    );
}

#[test]
fn test_filter_errs() {
    let f = Foo;

    let v: Vec<Result<u64, u64>> = vec![
        Ok(1),
        Err(2),
        Ok(3),
        Err(4),
        Ok(5),
        Err(6),
        Ok(7),
        Err(8),
        Ok(9),
        Err(0),
    ]
    .filter_errs(f)
    .collect();

    assert_eq!(v, vec![Ok(1), Ok(3), Ok(5), Err(6), Ok(7), Err(8), Ok(9)]);
}

#[test]
fn test_next_pulls_until_match() {
    let mut it = vec![1u64, 2, 9, 3, 8].filter_with(Foo);

    assert_eq!(it.next(), Some(9));
    assert_eq!(it.next(), Some(8));
    assert_eq!(it.next(), None);
}

#[test]
fn test_filter_with_empty_source() {
    let v: Vec<u64> = Vec::new().filter_with(Foo).collect();

    assert_eq!(v, Vec::<u64>::new());
}

#[test]
fn test_filter_oks_next_passes_errors() {
    let mut it = vec![Ok(1u64), Err(2u64), Ok(9)].filter_oks(Foo);

    assert_eq!(it.next(), Some(Err(2)));
    assert_eq!(it.next(), Some(Ok(9)));
    assert_eq!(it.next(), None);
}

#[test]
fn test_filter_errs_next_passes_oks() {
    let mut it = vec![Ok(1u64), Err(2u64), Err(9)].filter_errs(Foo);

    assert_eq!(it.next(), Some(Ok(1)));
    assert_eq!(it.next(), Some(Err(9)));
    assert_eq!(it.next(), None);
}
