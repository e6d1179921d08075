use runestick::error::{BorrowError, VmError};
use runestick::reflect::{borrow_string, borrow_string_mut, release_string, release_string_mut};
use runestick::shared::Shared;
use runestick::value::Value;

#[test]
fn fresh_cell_reads_its_payload() {
    let cell = Shared::new(String::from("hello"));
    let read = cell.try_read().unwrap().clone();
    assert_eq!(read, "hello");
}

#[test]
fn shared_borrows_may_coexist() {
    let mut cell = Shared::new(41i64);
    let g1 = cell.borrow_ref().unwrap();
    let g2 = cell.borrow_ref().unwrap();
    assert!(cell.borrow_mut().is_err());
    cell.release_ref(g1);
    assert!(cell.borrow_mut().is_err());
    cell.release_ref(g2);
    let g3 = cell.borrow_mut().unwrap();
    assert!(cell.borrow_ref().is_err());
    assert!(cell.try_read().is_err());
    cell.release_mut(g3);
    assert!(cell.borrow_ref().is_ok());
}

#[test]
fn take_fails_under_borrow() {
    let mut cell = Shared::new(7i64);
    let g = cell.borrow_ref().unwrap();
    cell.release_ref(g);
    let mut cell2 = Shared::new(8i64);
    let _g2 = cell2.borrow_ref().unwrap();
    assert_eq!(cell.take(), Ok(7));
    assert!(matches!(cell2.take(), Err(BorrowError)));
}

#[test]
fn overlapping_mutable_loans_fail() {
    let mut v = Value::String(Shared::new(String::from("s")));
    let g1 = borrow_string_mut(&mut v).unwrap();
    let second = borrow_string_mut(&mut v);
    assert!(matches!(second, Err(VmError::Borrow(BorrowError))));
    release_string_mut(&mut v, g1);
    let g2 = borrow_string(&mut v).unwrap().unwrap();
    release_string(&mut v, g2);
}

#[test]
fn static_string_loans_need_no_guard() {
    let mut v = Value::StaticString(String::from("interned"));
    let guard = borrow_string(&mut v).unwrap();
    assert!(guard.is_none());
    assert!(matches!(
        borrow_string_mut(&mut v),
        Err(VmError::ExpectedType(_))
    ));
}

#[test]
fn range_loans_follow_the_discipline() {
    let inner = runestick::range::Range::new(Some(Value::Integer(1)), None, runestick::range::RangeLimits::HalfOpen);
    let mut v = Value::Range(Shared::new(Box::new(inner)));
    let g1 = runestick::reflect::borrow_range(&mut v).unwrap();
    let g2 = runestick::reflect::borrow_range(&mut v).unwrap();
    assert!(matches!(runestick::reflect::borrow_range_mut(&mut v), Err(VmError::Borrow(BorrowError))));
    runestick::reflect::release_range(&mut v, g1);
    runestick::reflect::release_range(&mut v, g2);
    let m = runestick::reflect::borrow_range_mut(&mut v).unwrap();
    assert!(matches!(runestick::reflect::borrow_range(&mut v), Err(VmError::Borrow(BorrowError))));
    runestick::reflect::release_range_mut(&mut v, m);
    assert!(matches!(runestick::reflect::borrow_range_mut(&mut Value::Unit), Err(VmError::ExpectedType(_))));
}
