use core::cmp::Ordering;
use runestick::error::VmError;
use runestick::protocol::NoProtocolCaller;
use runestick::value::Value;
use runestick::variant::{Variant, VariantData, VariantRtti};

fn enum_hash() -> runestick::hash::Hash {
    runestick::hash::Hash::of_type(&["E"])
}

fn rtti_a() -> VariantRtti {
    VariantRtti {
        item: String::from("E::A"),
        hash: runestick::hash::Hash::of_type(&["E", "A"]),
        enum_hash: enum_hash(),
        fields: Vec::new(),
    }
}

fn rtti_b() -> VariantRtti {
    VariantRtti {
        item: String::from("E::B"),
        hash: runestick::hash::Hash::of_type(&["E", "B"]),
        enum_hash: enum_hash(),
        fields: Vec::new(),
    }
}

fn rtti_c() -> VariantRtti {
    VariantRtti {
        item: String::from("E::C"),
        hash: runestick::hash::Hash::of_type(&["E", "C"]),
        enum_hash: enum_hash(),
        fields: vec![String::from("x")],
    }
}

fn b_of(n: i64) -> Variant {
    Variant::tuple(rtti_b(), vec![Value::Integer(n)])
}

fn c_of(n: i64) -> Variant {
    Variant::struct_(rtti_c(), vec![Value::Integer(n)])
}

#[test]
fn unit_variants_compare_equal() {
    let mut caller = NoProtocolCaller;
    let a1 = Variant::unit(rtti_a());
    let a2 = Variant::unit(rtti_a());
    assert_eq!(Variant::partial_eq_with(&a1, &a2, &mut caller), Ok(true));
    assert_eq!(Variant::eq_with(&a1, &a2, &mut caller), Ok(true));
}

#[test]
fn tuple_variants_compare_by_payload() {
    let mut caller = NoProtocolCaller;
    assert_eq!(Variant::partial_eq_with(&b_of(1), &b_of(1), &mut caller), Ok(true));
    assert_eq!(Variant::partial_eq_with(&b_of(1), &b_of(2), &mut caller), Ok(false));
}

#[test]
fn different_variants_compare_unequal() {
    let mut caller = NoProtocolCaller;
    assert_eq!(Variant::partial_eq_with(&b_of(1), &c_of(1), &mut caller), Ok(false));
}

#[test]
fn same_variant_orders_by_payload() {
    let mut caller = NoProtocolCaller;
    assert_eq!(Variant::cmp_with(&b_of(1), &b_of(2), &mut caller), Ok(Ordering::Less));
    assert_eq!(Variant::cmp_with(&b_of(2), &b_of(2), &mut caller), Ok(Ordering::Equal));
    assert_eq!(Variant::cmp_with(&b_of(3), &b_of(2), &mut caller), Ok(Ordering::Greater));
    assert_eq!(
        Variant::partial_cmp_with(&b_of(1), &b_of(2), &mut caller),
        Ok(Some(Ordering::Less))
    );
}

#[test]
fn different_variants_order_by_hash() {
    let mut caller = NoProtocolCaller;
    let expected = if runestick::hash::Hash::of_type(&["E", "B"]).0 < runestick::hash::Hash::of_type(&["E", "C"]).0 {
        Ordering::Less
    } else {
        Ordering::Greater
    };
    assert_eq!(Variant::cmp_with(&b_of(1), &c_of(1), &mut caller), Ok(expected));
}

#[test]
fn shape_mismatch_is_a_vm_panic() {
    let mut caller = NoProtocolCaller;
    let unit_b = Variant::unit(rtti_b());
    match Variant::partial_eq_with(&b_of(1), &unit_b, &mut caller) {
        Err(VmError::Panic(msg)) => assert_eq!(msg, "data mismatch between variants"),
        other => panic!("expected a panic error, got {:?}", other.is_ok()),
    }
}

#[test]
fn variant_accessors_expose_rtti_and_data() {
    let v = b_of(9);
    assert_eq!(v.rtti().hash, runestick::hash::Hash::of_type(&["E", "B"]));
    assert_eq!(v.rtti().enum_hash, enum_hash());
    assert!(v.as_tuple().is_some());
    assert_eq!(v.as_tuple().unwrap().len(), 1);
    assert!(matches!(v.data(), VariantData::Tuple(_)));
    let unit = Variant::unit(rtti_a());
    assert!(unit.as_tuple().is_none());
}

#[test]
fn accessor_finds_fields_by_name() {
    let v = c_of(5);
    let data = vec![Value::Integer(5)];
    let accessor = v.accessor(&data);
    match accessor.field(&String::from("x")) {
        Some(Value::Integer(n)) => assert_eq!(*n, 5),
        _ => panic!("expected the declared field"),
    }
    assert!(accessor.field(&String::from("y")).is_none());
}
