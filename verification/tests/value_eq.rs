use runestick::error::{TypeTag, VmError};
use runestick::shared::Shared;
use runestick::value::{Bytes, Value};

#[test]
fn primitives_compare_by_value() {
    assert_eq!(Value::value_ptr_eq(&Value::Unit, &Value::Unit), Ok(true));
    assert_eq!(
        Value::value_ptr_eq(&Value::Integer(3), &Value::Integer(3)),
        Ok(true)
    );
    assert_eq!(
        Value::value_ptr_eq(&Value::Integer(3), &Value::Integer(4)),
        Ok(false)
    );
    assert_eq!(
        Value::value_ptr_eq(&Value::Char('a'), &Value::Char('a')),
        Ok(true)
    );
}

#[test]
fn distinct_cases_are_unequal() {
    assert_eq!(
        Value::value_ptr_eq(&Value::Integer(1), &Value::Bool(true)),
        Ok(false)
    );
    let s = Value::String(Shared::new(String::from("x")));
    let st = Value::StaticString(String::from("x"));
    assert_eq!(Value::value_ptr_eq(&s, &st), Ok(false));
}

#[test]
fn strings_compare_by_content() {
    let a = Value::String(Shared::new(String::from("abc")));
    let b = Value::String(Shared::new(String::from("abc")));
    let c = Value::String(Shared::new(String::from("abd")));
    assert_eq!(Value::value_ptr_eq(&a, &b), Ok(true));
    assert_eq!(Value::value_ptr_eq(&a, &c), Ok(false));
}

#[test]
fn composites_compare_elementwise() {
    let a = Value::Vec(Shared::new(vec![Value::Integer(1), Value::Bool(true)]));
    let b = Value::Vec(Shared::new(vec![Value::Integer(1), Value::Bool(true)]));
    let c = Value::Vec(Shared::new(vec![Value::Integer(1), Value::Bool(false)]));
    let d = Value::Vec(Shared::new(vec![Value::Integer(1)]));
    assert_eq!(Value::value_ptr_eq(&a, &b), Ok(true));
    assert_eq!(Value::value_ptr_eq(&a, &c), Ok(false));
    assert_eq!(Value::value_ptr_eq(&a, &d), Ok(false));

    let ba = Value::Bytes(Shared::new(Bytes { bytes: vec![1, 2] }));
    let bb = Value::Bytes(Shared::new(Bytes { bytes: vec![1, 2] }));
    let bc = Value::Bytes(Shared::new(Bytes { bytes: vec![1, 3] }));
    assert_eq!(Value::value_ptr_eq(&ba, &bb), Ok(true));
    assert_eq!(Value::value_ptr_eq(&ba, &bc), Ok(false));
}

#[test]
fn objects_compare_keys_in_order() {
    let a = Value::Object(Shared::new(vec![
        (String::from("k"), Value::Integer(1)),
        (String::from("l"), Value::Integer(2)),
    ]));
    let b = Value::Object(Shared::new(vec![
        (String::from("k"), Value::Integer(1)),
        (String::from("l"), Value::Integer(2)),
    ]));
    let c = Value::Object(Shared::new(vec![
        (String::from("l"), Value::Integer(2)),
        (String::from("k"), Value::Integer(1)),
    ]));
    assert_eq!(Value::value_ptr_eq(&a, &b), Ok(true));
    assert_eq!(Value::value_ptr_eq(&a, &c), Ok(false));
}

#[test]
fn comparison_respects_borrows() {
    let mut cell = Shared::new(String::from("busy"));
    let guard = cell.borrow_mut().unwrap();
    let a = Value::String(cell);
    let b = Value::String(Shared::new(String::from("busy")));
    assert!(matches!(
        Value::value_ptr_eq(&a, &b),
        Err(VmError::Borrow(_))
    ));
    let _ = guard;
}

#[test]
fn options_and_results_compare_recursively() {
    let some1 = Value::Option(Shared::new(Box::new(Some(Value::Integer(1)))));
    let some1b = Value::Option(Shared::new(Box::new(Some(Value::Integer(1)))));
    let none = Value::Option(Shared::new(Box::new(None)));
    assert_eq!(Value::value_ptr_eq(&some1, &some1b), Ok(true));
    assert_eq!(Value::value_ptr_eq(&some1, &none), Ok(false));

    let ok1 = Value::Result(Shared::new(Box::new(Ok(Value::Integer(1)))));
    let err1 = Value::Result(Shared::new(Box::new(Err(Value::Integer(1)))));
    let ok1b = Value::Result(Shared::new(Box::new(Ok(Value::Integer(1)))));
    assert_eq!(Value::value_ptr_eq(&ok1, &ok1b), Ok(true));
    assert_eq!(Value::value_ptr_eq(&ok1, &err1), Ok(false));
}

#[test]
fn type_info_reports_the_tag() {
    assert_eq!(Value::Unit.type_info(), TypeTag::Unit);
    assert_eq!(Value::Integer(0).type_info(), TypeTag::Integer);
    assert_eq!(
        Value::String(Shared::new(String::new())).type_info(),
        TypeTag::String
    );
}
