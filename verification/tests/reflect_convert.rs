use runestick::error::{TypeTag, VmError};
use runestick::reflect::{FromValue, ToValue};
use runestick::shared::Shared;
use runestick::value::{Bytes, Value};

#[test]
fn integer_round_trip() {
    for i in [0i64, 1, -1, 42, i64::MAX, i64::MIN] {
        let v = Value::from(i);
        assert_eq!(i64::from_value(v), Ok(i));
        let v2 = i.to_value().unwrap();
        assert_eq!(i64::from_value(v2), Ok(i));
    }
}

#[test]
fn mismatched_tag_reports_actual_type() {
    let v = Value::Bool(true);
    assert_eq!(i64::from_value(v), Err(VmError::ExpectedType(TypeTag::Bool)));
    let v = Value::Integer(3);
    assert_eq!(bool::from_value(v), Err(VmError::ExpectedType(TypeTag::Integer)));
}

#[test]
fn string_round_trip() {
    let v = String::from("hello").to_value().unwrap();
    assert_eq!(String::from_value(v), Ok(String::from("hello")));
    let s = Value::StaticString(String::from("interned"));
    assert_eq!(String::from_value(s), Ok(String::from("interned")));
}

#[test]
fn bytes_round_trip() {
    let v = Bytes { bytes: vec![1u8, 2, 255] }.to_value().unwrap();
    let back = Bytes::from_value(v).unwrap();
    assert_eq!(back.bytes, vec![1u8, 2, 255]);
}

#[test]
fn option_of_string_round_trip() {
    let v = Some(String::from("inner")).to_value().unwrap();
    assert_eq!(
        Option::<String>::from_value(v),
        Ok(Some(String::from("inner")))
    );
    let v = Option::<String>::None.to_value().unwrap();
    assert_eq!(Option::<String>::from_value(v), Ok(None));
}

#[test]
fn pair_round_trip_and_calc() {
    let v = (1i64, 2i64).to_value().unwrap();
    let (a, b) = <(i64, i64)>::from_value(v).unwrap();
    assert_eq!((a, b), (1, 2));
    let result = (a + 1, b + 2).to_value().unwrap();
    assert_eq!(<(i64, i64)>::from_value(result), Ok((2, 4)));
}

#[test]
fn borrowed_string_cell_fails_conversion() {
    let mut cell = Shared::new(String::from("busy"));
    let guard = cell.borrow_mut().unwrap();
    let v = Value::String(cell);
    assert!(matches!(String::from_value(v), Err(VmError::Borrow(_))));
    let _ = guard;
}

#[test]
fn unit_and_primitives_convert() {
    assert!(matches!(().to_value(), Ok(Value::Unit)));
    assert!(matches!(true.to_value(), Ok(Value::Bool(true))));
    assert!(matches!(7u8.to_value(), Ok(Value::Byte(7))));
    assert!(matches!('q'.to_value(), Ok(Value::Char('q'))));
    assert_eq!(u8::from_value(Value::Byte(9)), Ok(9));
    assert_eq!(char::from_value(Value::Char('z')), Ok('z'));
    assert_eq!(bool::from_value(Value::Bool(false)), Ok(false));
}

#[test]
fn std_ranges_convert() {
    let v = (1i64..4i64).to_value().unwrap();
    let r = runestick::range::Range::from_value(v).unwrap();
    assert!(matches!(r.limits, runestick::range::RangeLimits::HalfOpen));
    let it = r.into_iterator().unwrap();
    let mut out = Vec::new();
    let mut it = it;
    while let Some(n) = it.next() {
        out.push(n);
    }
    assert_eq!(out, vec![1, 2, 3]);

    let v = (1i64..=4i64).to_value().unwrap();
    let r = runestick::range::Range::from_value(v).unwrap();
    assert!(matches!(r.limits, runestick::range::RangeLimits::Closed));
}

#[test]
fn vec_of_integers_converts() {
    let v = vec![1i64, 2, 3].to_value().unwrap();
    match v {
        Value::Vec(cell) => {
            let items = cell.try_read().unwrap();
            assert_eq!(items.len(), 3);
            assert!(matches!(items[0], Value::Integer(1)));
            assert!(matches!(items[2], Value::Integer(3)));
        }
        _ => panic!("expected a vec value"),
    }
}

#[test]
fn vec_round_trip() {
    let v = vec![3i64, 1, 2].to_value().unwrap();
    assert_eq!(Vec::<i64>::from_value(v), Ok(vec![3i64, 1, 2]));
    let v = Vec::<i64>::new().to_value().unwrap();
    assert_eq!(Vec::<i64>::from_value(v), Ok(Vec::new()));
    let mixed = Value::Vec(Shared::new(vec![Value::Integer(1), Value::Bool(true)]));
    assert!(matches!(
        Vec::<i64>::from_value(mixed),
        Err(VmError::ExpectedType(TypeTag::Bool))
    ));
}

#[test]
fn remaining_std_ranges_convert() {
    let v = (1i64..).to_value().unwrap();
    let r = runestick::range::Range::from_value(v).unwrap();
    assert!(matches!(r.limits, runestick::range::RangeLimits::HalfOpen));
    assert!(matches!(r.start, Some(Value::Integer(1))));
    assert!(r.end.is_none());

    let v = (..).to_value().unwrap();
    let r = runestick::range::Range::from_value(v).unwrap();
    assert!(matches!(r.limits, runestick::range::RangeLimits::HalfOpen));
    assert!(r.start.is_none());
    assert!(r.end.is_none());

    let v = (..7i64).to_value().unwrap();
    let r = runestick::range::Range::from_value(v).unwrap();
    assert!(matches!(r.limits, runestick::range::RangeLimits::HalfOpen));
    assert!(r.start.is_none());
    assert!(matches!(r.end, Some(Value::Integer(7))));

    let v = (..=7i64).to_value().unwrap();
    let r = runestick::range::Range::from_value(v).unwrap();
    assert!(matches!(r.limits, runestick::range::RangeLimits::Closed));
    assert!(r.start.is_none());
    assert!(matches!(r.end, Some(Value::Integer(7))));
}

#[test]
fn boxed_str_round_trip() {
    let b: Box<str> = String::from("boxed").into_boxed_str();
    let v = b.to_value().unwrap();
    let back = Box::<str>::from_value(v).unwrap();
    assert_eq!(&*back, "boxed");
    assert!(matches!(
        Box::<str>::from_value(Value::StaticString(String::from("s"))),
        Err(VmError::ExpectedType(TypeTag::StaticString))
    ));
}
