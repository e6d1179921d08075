use runestick::args::{Args, Stack};
use runestick::value::Value;

#[test]
fn counts_match_arity() {
    assert_eq!(<() as Args>::count(), 0);
    assert_eq!(<(i64,) as Args>::count(), 1);
    assert_eq!(<(i64, bool) as Args>::count(), 2);
    assert_eq!(<(i64, bool, u8) as Args>::count(), 3);
    assert_eq!(<(i64, bool, u8, char) as Args>::count(), 4);
}

#[test]
fn into_vec_preserves_order_and_length() {
    let vs = (1i64, true, 7u8).into_vec().unwrap();
    assert_eq!(vs.len(), 3);
    assert!(matches!(vs[0], Value::Integer(1)));
    assert!(matches!(vs[1], Value::Bool(true)));
    assert!(matches!(vs[2], Value::Byte(7)));
    assert_eq!(().into_vec().unwrap().len(), 0);
}

#[test]
fn into_stack_pushes_positionally() {
    let mut stack = Stack::new();
    stack.push(Value::Unit);
    (10i64, 20i64).into_stack(&mut stack).unwrap();
    assert_eq!(stack.len(), 3);
    assert!(matches!(stack.pop(), Some(Value::Integer(20))));
    assert!(matches!(stack.pop(), Some(Value::Integer(10))));
    assert!(matches!(stack.pop(), Some(Value::Unit)));
    assert!(stack.pop().is_none());
}

#[test]
fn stack_clear_empties() {
    let mut stack = Stack::new();
    (1i64,).into_stack(&mut stack).unwrap();
    stack.clear();
    assert_eq!(stack.len(), 0);
}

#[test]
fn nested_tuple_argument_packs() {
    let vs = ((1i64, 2i64),).into_vec().unwrap();
    assert_eq!(vs.len(), 1);
    match &vs[0] {
        Value::Tuple(cell) => {
            let items = cell.try_read().unwrap();
            assert_eq!(items.len(), 2);
            assert!(matches!(items[0], Value::Integer(1)));
            assert!(matches!(items[1], Value::Integer(2)));
        }
        _ => panic!("expected a tuple value"),
    }
}
