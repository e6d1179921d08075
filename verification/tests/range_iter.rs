use runestick::error::VmError;
use runestick::range::{Range, RangeIter, RangeLimits};
use runestick::value::Value;

fn drain(mut it: RangeIter, cap: usize) -> Vec<i64> {
    let mut out = Vec::new();
    while out.len() < cap {
        match it.next() {
            Some(n) => out.push(n),
            None => break,
        }
    }
    out
}

#[test]
fn half_open_range_iterates() {
    let r = Range::new(
        Some(Value::Integer(0)),
        Some(Value::Integer(3)),
        RangeLimits::HalfOpen,
    );
    let it = r.into_iterator().unwrap();
    assert_eq!(drain(it, 10), vec![0, 1, 2]);
}

#[test]
fn closed_range_iterates() {
    let r = Range::new(
        Some(Value::Integer(0)),
        Some(Value::Integer(3)),
        RangeLimits::Closed,
    );
    let it = r.into_iterator().unwrap();
    assert_eq!(drain(it, 10), vec![0, 1, 2, 3]);
}

#[test]
fn unbounded_range_iterates_forward() {
    let r = Range::new(Some(Value::Integer(0)), None, RangeLimits::HalfOpen);
    let it = r.into_iterator().unwrap();
    assert_eq!(drain(it, 3), vec![0, 1, 2]);
}

#[test]
fn empty_ranges_yield_nothing() {
    let r = Range::new(
        Some(Value::Integer(5)),
        Some(Value::Integer(2)),
        RangeLimits::HalfOpen,
    );
    assert_eq!(drain(r.into_iterator().unwrap(), 10), Vec::<i64>::new());
    let r = Range::new(
        Some(Value::Integer(5)),
        Some(Value::Integer(2)),
        RangeLimits::Closed,
    );
    assert_eq!(drain(r.into_iterator().unwrap(), 10), Vec::<i64>::new());
}

#[test]
fn bounded_ranges_are_double_ended() {
    let r = Range::new(
        Some(Value::Integer(0)),
        Some(Value::Integer(3)),
        RangeLimits::Closed,
    );
    let mut it = r.into_iterator().unwrap();
    assert_eq!(it.next_back(), Some(3));
    assert_eq!(it.next(), Some(0));
    assert_eq!(it.next_back(), Some(2));
    assert_eq!(it.next(), Some(1));
    assert_eq!(it.next(), None);
}

#[test]
fn non_integer_shapes_are_not_iterators() {
    let cases = vec![
        Range::new(None, None, RangeLimits::HalfOpen),
        Range::new(None, Some(Value::Integer(3)), RangeLimits::HalfOpen),
        Range::new(Some(Value::Bool(true)), Some(Value::Integer(3)), RangeLimits::HalfOpen),
        Range::new(
            Some(Value::Integer(0)),
            Some(Value::Char('x')),
            RangeLimits::Closed,
        ),
    ];
    for r in cases {
        match r.into_iterator() {
            Err(VmError::Panic(msg)) => assert_eq!(msg, "not an iterator"),
            other => panic!("expected a panic error, got {:?}", other.is_ok()),
        }
    }
}

#[test]
fn range_structural_equality() {
    let a = Range::new(
        Some(Value::Integer(1)),
        Some(Value::Integer(2)),
        RangeLimits::HalfOpen,
    );
    let b = Range::new(
        Some(Value::Integer(1)),
        Some(Value::Integer(2)),
        RangeLimits::HalfOpen,
    );
    let c = Range::new(
        Some(Value::Integer(1)),
        Some(Value::Integer(2)),
        RangeLimits::Closed,
    );
    let d = Range::new(Some(Value::Integer(1)), None, RangeLimits::HalfOpen);
    assert_eq!(Range::value_ptr_eq(&a, &b), Ok(true));
    assert_eq!(Range::value_ptr_eq(&a, &c), Ok(false));
    assert_eq!(Range::value_ptr_eq(&a, &d), Ok(false));
}

#[test]
fn closed_unbounded_is_not_an_iterator() {
    let r = Range::new(Some(Value::Integer(0)), None, RangeLimits::Closed);
    match r.into_iterator() {
        Err(VmError::Panic(msg)) => assert_eq!(msg, "not an iterator"),
        other => panic!("expected a panic error, got {:?}", other.is_ok()),
    }
}
