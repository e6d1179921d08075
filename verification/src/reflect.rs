//! The host-interop reflection layer: owning conversions between host data
//! and runtime values, and the loan-based by-reference conversions whose
//! release point is chosen by the caller.

use crate::error::BorrowError;
use crate::error::TypeTag;
use crate::error::VmError;
use crate::range::Range;
use crate::range::RangeLimits;
use crate::shared::OwnedMut;
use crate::shared::OwnedRef;
use crate::shared::Shared;
use crate::value::spec_type_tag;
use crate::value::Bytes;
use crate::value::Value;
use crate::variant::Variant;
use vstd::prelude::*;

verus! {

/// Relies on `core::ops::RangeInclusive::into_inner`: it destructures the
/// range into its lower and upper bound, the fields it was built from.
pub assume_specification<Idx>[ core::ops::RangeInclusive::<Idx>::into_inner ](
    r: core::ops::RangeInclusive<Idx>,
) -> (ret: (Idx, Idx))
    ensures
        ret.0 == r@.start,
        ret.1 == r@.end,
;

/// The standard `start..` range, declared so its public field is visible.
#[verifier::external_type_specification]
#[verifier::reject_recursive_types(Idx)]
pub struct ExRangeFrom<Idx>(core::ops::RangeFrom<Idx>);

/// The standard `..end` range, declared so its public field is visible.
#[verifier::external_type_specification]
#[verifier::reject_recursive_types(Idx)]
pub struct ExRangeTo<Idx>(core::ops::RangeTo<Idx>);

/// The standard `..=end` range, declared so its public field is visible.
#[verifier::external_type_specification]
#[verifier::reject_recursive_types(Idx)]
pub struct ExRangeToInclusive<Idx>(core::ops::RangeToInclusive<Idx>);

/// The standard full range `..`, a unit struct.
#[verifier::external_type_specification]
pub struct ExRangeFull(core::ops::RangeFull);

/// Relies on `Box::<str>::into_string`: the same text, as an owned string.
#[verifier::external_body]
fn box_str_into_string(b: Box<str>) -> (r: String)
    ensures
        r@ == b@,
{
    b.into_string()
}

/// Relies on `String::into_boxed_str`: the same text, as a boxed slice.
#[verifier::external_body]
fn string_into_boxed_str(s: String) -> (r: Box<str>)
    ensures
        r@ == s@,
{
    s.into_boxed_str()
}

/// Conversion of host-typed data into a runtime value.
pub trait ToValue: Sized {
    /// Whether `v` is a faithful conversion of this datum: the matching tag,
    /// the same content, and freshly allocated cells with no borrows
    /// outstanding.
    spec fn value_of(self, v: Value) -> bool;

    /// Convert this datum into a freshly allocated value.
    fn to_value(self) -> (r: Result<Value, VmError>)
        ensures
            r matches Ok(v) && self.value_of(v),
    ;
}

/// Conversion of a runtime value back into host-typed data.
pub trait FromValue: Sized {
    /// Whether `x` is the datum the value converts to.
    spec fn datum_of(v: Value, x: Self) -> bool;

    /// When the conversion is owed to succeed: the tag matches and every
    /// cell that must be read or taken is free of conflicting borrows.
    spec fn convertible(v: Value) -> bool;

    /// The value tags this conversion accepts at the top level.
    spec fn accepts_tag(t: TypeTag) -> bool;

    /// Convert a value into this datum. A value of the wrong tag fails with
    /// the tag actually seen; an outstanding borrow fails with a borrow
    /// error; no conversion raises any other kind of error.
    fn from_value(v: Value) -> (r: Result<Self, VmError>)
        ensures
            r matches Ok(x) ==> Self::datum_of(v, x),
            Self::convertible(v) ==> r matches Ok(_),
            !Self::accepts_tag(spec_type_tag(v)) ==> (r matches Err(e) && e
                matches VmError::ExpectedType(t) && t == spec_type_tag(v)),
            r matches Err(e) ==> (e matches VmError::ExpectedType(_) || e matches VmError::Borrow(
                _,
            )),
    ;
}

/// Converting a host integer into a value and reading it back is the
/// identity: `Value::from` yields the inline integer case, converting that
/// case back is owed to succeed, and it can only return the same integer.
pub proof fn lemma_integer_in_out(i: i64, x: i64)
    ensures
        <Value as vstd::std_specs::convert::FromSpec<i64>>::from_spec(i) == Value::Integer(i),
        <i64 as FromValue>::convertible(Value::Integer(i)),
        <i64 as FromValue>::datum_of(Value::Integer(i), x) ==> x == i,
{
}

/// Round trip for integer values: reading a value back as a host integer
/// and converting it again yields a structurally equal value.
pub proof fn lemma_round_trip_integer(v: Value, x: i64, w: Value)
    requires
        <i64 as FromValue>::datum_of(v, x),
        <i64 as ToValue>::value_of(x, w),
    ensures
        crate::value::spec_value_eq(v, w),
{
}

/// Round trip for boolean values.
pub proof fn lemma_round_trip_bool(v: Value, x: bool, w: Value)
    requires
        <bool as FromValue>::datum_of(v, x),
        <bool as ToValue>::value_of(x, w),
    ensures
        crate::value::spec_value_eq(v, w),
{
}

/// Round trip for mutable string values: the text read out and converted
/// again yields a structurally equal value, whatever the borrow counters.
pub proof fn lemma_round_trip_string(v: Value, x: String, w: Value)
    requires
        v matches Value::String(_),
        <String as FromValue>::datum_of(v, x),
        <String as ToValue>::value_of(x, w),
    ensures
        crate::value::spec_value_eq(v, w),
{
}

/// Round trip for byte-buffer values.
pub proof fn lemma_round_trip_bytes(v: Value, x: Bytes, w: Value)
    requires
        <Bytes as FromValue>::datum_of(v, x),
        <Bytes as ToValue>::value_of(x, w),
    ensures
        crate::value::spec_value_eq(v, w),
{
}

/// Round trip for options of integers.
pub proof fn lemma_round_trip_option_integer(v: Value, x: Option<i64>, w: Value)
    requires
        <Option<i64> as FromValue>::datum_of(v, x),
        <Option<i64> as ToValue>::value_of(x, w),
    ensures
        crate::value::spec_value_eq(v, w),
{
    match (v, w) {
        (Value::Option(c), Value::Option(c2)) => {
            match (*c.payload(), *c2.payload()) {
                (Some(a), Some(b)) => {
                    assert(a == Value::Integer(x->Some_0));
                    assert(b == Value::Integer(x->Some_0));
                    assert(crate::value::spec_value_eq(a, b));
                },
                (None, None) => {
                    assert(crate::value::spec_option_eq(*c.payload(), *c2.payload()));
                },
                _ => {},
            }
        },
        _ => {},
    }
}

/// Round trip for pairs of integers.
pub proof fn lemma_round_trip_pair_integer(v: Value, x: (i64, i64), w: Value)
    requires
        <(i64, i64) as FromValue>::datum_of(v, x),
        <(i64, i64) as ToValue>::value_of(x, w),
    ensures
        crate::value::spec_value_eq(v, w),
{
    match (v, w) {
        (Value::Tuple(c), Value::Tuple(c2)) => {
            assert forall|i: int| 0 <= i < c.payload()@.len() implies crate::value::spec_value_eq(
                #[trigger] c.payload()@[i],
                c2.payload()@[i],
            ) by {
                if i == 0 {
                    assert(c.payload()@[0] == Value::Integer(x.0));
                    assert(c2.payload()@[0] == Value::Integer(x.0));
                } else {
                    assert(c.payload()@[1] == Value::Integer(x.1));
                    assert(c2.payload()@[1] == Value::Integer(x.1));
                }
            }
        },
        _ => {},
    }
}

impl ToValue for () {
    open spec fn value_of(self, v: Value) -> bool {
        v matches Value::Unit
    }

    fn to_value(self) -> (r: Result<Value, VmError>) {
        Ok(Value::Unit)
    }
}

impl FromValue for () {
    open spec fn datum_of(v: Value, x: Self) -> bool {
        v matches Value::Unit
    }

    open spec fn convertible(v: Value) -> bool {
        v matches Value::Unit
    }

    open spec fn accepts_tag(t: TypeTag) -> bool {
        t == TypeTag::Unit
    }

    fn from_value(v: Value) -> (r: Result<Self, VmError>) {
        match v {
            Value::Unit => Ok(()),
            actual => Err(VmError::ExpectedType(actual.type_info())),
        }
    }
}

impl ToValue for bool {
    open spec fn value_of(self, v: Value) -> bool {
        v == Value::Bool(self)
    }

    fn to_value(self) -> (r: Result<Value, VmError>) {
        Ok(Value::Bool(self))
    }
}

impl FromValue for bool {
    open spec fn datum_of(v: Value, x: Self) -> bool {
        v == Value::Bool(x)
    }

    open spec fn convertible(v: Value) -> bool {
        v matches Value::Bool(_)
    }

    open spec fn accepts_tag(t: TypeTag) -> bool {
        t == TypeTag::Bool
    }

    fn from_value(v: Value) -> (r: Result<Self, VmError>) {
        match v {
            Value::Bool(b) => Ok(b),
            actual => Err(VmError::ExpectedType(actual.type_info())),
        }
    }
}

impl ToValue for u8 {
    open spec fn value_of(self, v: Value) -> bool {
        v == Value::Byte(self)
    }

    fn to_value(self) -> (r: Result<Value, VmError>) {
        Ok(Value::Byte(self))
    }
}

impl FromValue for u8 {
    open spec fn datum_of(v: Value, x: Self) -> bool {
        v == Value::Byte(x)
    }

    open spec fn convertible(v: Value) -> bool {
        v matches Value::Byte(_)
    }

    open spec fn accepts_tag(t: TypeTag) -> bool {
        t == TypeTag::Byte
    }

    fn from_value(v: Value) -> (r: Result<Self, VmError>) {
        match v {
            Value::Byte(b) => Ok(b),
            actual => Err(VmError::ExpectedType(actual.type_info())),
        }
    }
}

impl ToValue for char {
    open spec fn value_of(self, v: Value) -> bool {
        v == Value::Char(self)
    }

    fn to_value(self) -> (r: Result<Value, VmError>) {
        Ok(Value::Char(self))
    }
}

impl FromValue for char {
    open spec fn datum_of(v: Value, x: Self) -> bool {
        v == Value::Char(x)
    }

    open spec fn convertible(v: Value) -> bool {
        v matches Value::Char(_)
    }

    open spec fn accepts_tag(t: TypeTag) -> bool {
        t == TypeTag::Char
    }

    fn from_value(v: Value) -> (r: Result<Self, VmError>) {
        match v {
            Value::Char(c) => Ok(c),
            actual => Err(VmError::ExpectedType(actual.type_info())),
        }
    }
}

impl ToValue for i64 {
    open spec fn value_of(self, v: Value) -> bool {
        v == Value::Integer(self)
    }

    fn to_value(self) -> (r: Result<Value, VmError>) {
        Ok(Value::Integer(self))
    }
}

impl FromValue for i64 {
    open spec fn datum_of(v: Value, x: Self) -> bool {
        v == Value::Integer(x)
    }

    open spec fn convertible(v: Value) -> bool {
        v matches Value::Integer(_)
    }

    open spec fn accepts_tag(t: TypeTag) -> bool {
        t == TypeTag::Integer
    }

    fn from_value(v: Value) -> (r: Result<Self, VmError>) {
        match v {
            Value::Integer(n) => Ok(n),
            actual => Err(VmError::ExpectedType(actual.type_info())),
        }
    }
}

impl ToValue for String {
    open spec fn value_of(self, v: Value) -> bool {
        v matches Value::String(c) && c.payload() == self && c.is_fresh()
    }

    fn to_value(self) -> (r: Result<Value, VmError>) {
        Ok(Value::String(Shared::new(self)))
    }
}

impl FromValue for String {
    open spec fn datum_of(v: Value, x: Self) -> bool {
        match v {
            Value::String(c) => x == c.payload(),
            Value::StaticString(s) => x == s,
            _ => false,
        }
    }

    open spec fn convertible(v: Value) -> bool {
        match v {
            Value::String(c) => !c.is_exclusive(),
            Value::StaticString(_) => true,
            _ => false,
        }
    }

    open spec fn accepts_tag(t: TypeTag) -> bool {
        t == TypeTag::String || t == TypeTag::StaticString
    }

    fn from_value(v: Value) -> (r: Result<Self, VmError>) {
        match v {
            Value::String(c) => match c.try_read() {
                Ok(s) => Ok(s.clone()),
                Err(_) => Err(VmError::Borrow(BorrowError)),
            },
            Value::StaticString(s) => Ok(s),
            actual => Err(VmError::ExpectedType(actual.type_info())),
        }
    }
}

impl ToValue for Bytes {
    open spec fn value_of(self, v: Value) -> bool {
        v matches Value::Bytes(c) && c.payload() == self && c.is_fresh()
    }

    fn to_value(self) -> (r: Result<Value, VmError>) {
        Ok(Value::Bytes(Shared::new(self)))
    }
}

impl FromValue for Bytes {
    open spec fn datum_of(v: Value, x: Self) -> bool {
        v matches Value::Bytes(c) && x.bytes@ == c.payload().bytes@
    }

    open spec fn convertible(v: Value) -> bool {
        v matches Value::Bytes(c) && !c.is_exclusive()
    }

    open spec fn accepts_tag(t: TypeTag) -> bool {
        t == TypeTag::Bytes
    }

    fn from_value(v: Value) -> (r: Result<Self, VmError>) {
        match v {
            Value::Bytes(c) => match c.try_read() {
                Ok(b) => Ok(Bytes { bytes: b.bytes.clone() }),
                Err(_) => Err(VmError::Borrow(BorrowError)),
            },
            actual => Err(VmError::ExpectedType(actual.type_info())),
        }
    }
}

impl ToValue for Range {
    open spec fn value_of(self, v: Value) -> bool {
        v matches Value::Range(c) && *c.payload() == self && c.is_fresh()
    }

    fn to_value(self) -> (r: Result<Value, VmError>) {
        Ok(Value::Range(Shared::new(Box::new(self))))
    }
}

impl FromValue for Range {
    open spec fn datum_of(v: Value, x: Self) -> bool {
        v matches Value::Range(c) && x == *c.payload()
    }

    open spec fn convertible(v: Value) -> bool {
        v matches Value::Range(c) && !c.is_exclusive() && c.shared_count() == 0
    }

    open spec fn accepts_tag(t: TypeTag) -> bool {
        t == TypeTag::Range
    }

    fn from_value(v: Value) -> (r: Result<Self, VmError>) {
        match v {
            Value::Range(c) => match c.take() {
                Ok(b) => Ok(*b),
                Err(_) => Err(VmError::Borrow(BorrowError)),
            },
            actual => Err(VmError::ExpectedType(actual.type_info())),
        }
    }
}

impl ToValue for Variant {
    open spec fn value_of(self, v: Value) -> bool {
        v matches Value::Variant(c) && c.payload() == self && c.is_fresh()
    }

    fn to_value(self) -> (r: Result<Value, VmError>) {
        Ok(Value::Variant(Shared::new(self)))
    }
}

impl FromValue for Variant {
    open spec fn datum_of(v: Value, x: Self) -> bool {
        v matches Value::Variant(c) && x == c.payload()
    }

    open spec fn convertible(v: Value) -> bool {
        v matches Value::Variant(c) && !c.is_exclusive() && c.shared_count() == 0
    }

    open spec fn accepts_tag(t: TypeTag) -> bool {
        t == TypeTag::Variant
    }

    fn from_value(v: Value) -> (r: Result<Self, VmError>) {
        match v {
            Value::Variant(c) => match c.take() {
                Ok(x) => Ok(x),
                Err(_) => Err(VmError::Borrow(BorrowError)),
            },
            actual => Err(VmError::ExpectedType(actual.type_info())),
        }
    }
}

impl<T: ToValue> ToValue for Option<T> {
    open spec fn value_of(self, v: Value) -> bool {
        v matches Value::Option(c) && c.is_fresh() && (match (self, *c.payload()) {
            (None, None) => true,
            (Some(x), Some(w)) => x.value_of(w),
            _ => false,
        })
    }

    fn to_value(self) -> (r: Result<Value, VmError>) {
        match self {
            Some(x) => match x.to_value() {
                Ok(w) => Ok(Value::Option(Shared::new(Box::new(Some(w))))),
                Err(e) => Err(e),
            },
            None => Ok(Value::Option(Shared::new(Box::new(None)))),
        }
    }
}

impl<T: FromValue> FromValue for Option<T> {
    open spec fn datum_of(v: Value, x: Self) -> bool {
        v matches Value::Option(c) && (match (*c.payload(), x) {
            (None, None) => true,
            (Some(w), Some(y)) => T::datum_of(w, y),
            _ => false,
        })
    }

    open spec fn convertible(v: Value) -> bool {
        v matches Value::Option(c) && !c.is_exclusive() && c.shared_count() == 0 && (
        match *c.payload() {
            None => true,
            Some(w) => T::convertible(w),
        })
    }

    open spec fn accepts_tag(t: TypeTag) -> bool {
        t == TypeTag::Option
    }

    fn from_value(v: Value) -> (r: Result<Self, VmError>) {
        match v {
            Value::Option(c) => match c.take() {
                Ok(b) => match *b {
                    Some(w) => match T::from_value(w) {
                        Ok(y) => Ok(Some(y)),
                        Err(e) => Err(e),
                    },
                    None => Ok(None),
                },
                Err(_) => Err(VmError::Borrow(BorrowError)),
            },
            actual => Err(VmError::ExpectedType(actual.type_info())),
        }
    }
}

/// Coerce `start..end` into a half-open range value.
impl<Idx: ToValue> ToValue for core::ops::Range<Idx> {
    open spec fn value_of(self, v: Value) -> bool {
        v matches Value::Range(c) && c.is_fresh() && (*c.payload()).limits == RangeLimits::HalfOpen
            && (match ((*c.payload()).start, (*c.payload()).end) {
            (Some(s), Some(e)) => self.start.value_of(s) && self.end.value_of(e),
            _ => false,
        })
    }

    fn to_value(self) -> (r: Result<Value, VmError>) {
        let start = match self.start.to_value() {
            Ok(v) => v,
            Err(e) => {
                return Err(e);
            },
        };
        let end = match self.end.to_value() {
            Ok(v) => v,
            Err(e) => {
                return Err(e);
            },
        };
        Ok(
            Value::Range(
                Shared::new(Box::new(Range::new(Some(start), Some(end), RangeLimits::HalfOpen))),
            ),
        )
    }
}

/// Coerce `start..=end` into a closed range value.
impl<Idx: ToValue> ToValue for core::ops::RangeInclusive<Idx> {
    open spec fn value_of(self, v: Value) -> bool {
        v matches Value::Range(c) && c.is_fresh() && (*c.payload()).limits == RangeLimits::Closed
            && (match ((*c.payload()).start, (*c.payload()).end) {
            (Some(s), Some(e)) => self@.start.value_of(s) && self@.end.value_of(e),
            _ => false,
        })
    }

    fn to_value(self) -> (r: Result<Value, VmError>) {
        let (start, end) = self.into_inner();
        let start = match start.to_value() {
            Ok(v) => v,
            Err(e) => {
                return Err(e);
            },
        };
        let end = match end.to_value() {
            Ok(v) => v,
            Err(e) => {
                return Err(e);
            },
        };
        Ok(
            Value::Range(
                Shared::new(Box::new(Range::new(Some(start), Some(end), RangeLimits::Closed))),
            ),
        )
    }
}

/// Coerce `start..` into a half-open range value with no end.
impl<Idx: ToValue> ToValue for core::ops::RangeFrom<Idx> {
    open spec fn value_of(self, v: Value) -> bool {
        v matches Value::Range(c) && c.is_fresh() && (*c.payload()).limits == RangeLimits::HalfOpen
            && (*c.payload()).end is None && (match (*c.payload()).start {
            Some(s) => self.start.value_of(s),
            None => false,
        })
    }

    fn to_value(self) -> (r: Result<Value, VmError>) {
        let start = match self.start.to_value() {
            Ok(v) => v,
            Err(e) => {
                return Err(e);
            },
        };
        Ok(Value::Range(Shared::new(Box::new(Range::new(Some(start), None, RangeLimits::HalfOpen)))))
    }
}

/// Coerce the full range `..` into a range value with neither endpoint.
impl ToValue for core::ops::RangeFull {
    open spec fn value_of(self, v: Value) -> bool {
        v matches Value::Range(c) && c.is_fresh() && (*c.payload()).limits == RangeLimits::HalfOpen
            && (*c.payload()).start is None && (*c.payload()).end is None
    }

    fn to_value(self) -> (r: Result<Value, VmError>) {
        Ok(Value::Range(Shared::new(Box::new(Range::new(None, None, RangeLimits::HalfOpen)))))
    }
}

/// Coerce `..end` into a half-open range value with no start.
impl<Idx: ToValue> ToValue for core::ops::RangeTo<Idx> {
    open spec fn value_of(self, v: Value) -> bool {
        v matches Value::Range(c) && c.is_fresh() && (*c.payload()).limits == RangeLimits::HalfOpen
            && (*c.payload()).start is None && (match (*c.payload()).end {
            Some(e) => self.end.value_of(e),
            None => false,
        })
    }

    fn to_value(self) -> (r: Result<Value, VmError>) {
        let end = match self.end.to_value() {
            Ok(v) => v,
            Err(e) => {
                return Err(e);
            },
        };
        Ok(Value::Range(Shared::new(Box::new(Range::new(None, Some(end), RangeLimits::HalfOpen)))))
    }
}

/// Coerce `..=end` into a closed range value with no start.
impl<Idx: ToValue> ToValue for core::ops::RangeToInclusive<Idx> {
    open spec fn value_of(self, v: Value) -> bool {
        v matches Value::Range(c) && c.is_fresh() && (*c.payload()).limits == RangeLimits::Closed
            && (*c.payload()).start is None && (match (*c.payload()).end {
            Some(e) => self.end.value_of(e),
            None => false,
        })
    }

    fn to_value(self) -> (r: Result<Value, VmError>) {
        let end = match self.end.to_value() {
            Ok(v) => v,
            Err(e) => {
                return Err(e);
            },
        };
        Ok(Value::Range(Shared::new(Box::new(Range::new(None, Some(end), RangeLimits::Closed)))))
    }
}

impl ToValue for Box<str> {
    open spec fn value_of(self, v: Value) -> bool {
        v matches Value::String(c) && c.payload()@ == self@ && c.is_fresh()
    }

    fn to_value(self) -> (r: Result<Value, VmError>) {
        Ok(Value::String(Shared::new(box_str_into_string(self))))
    }
}

impl FromValue for Box<str> {
    open spec fn datum_of(v: Value, x: Self) -> bool {
        v matches Value::String(c) && x@ == c.payload()@
    }

    open spec fn convertible(v: Value) -> bool {
        v matches Value::String(c) && !c.is_exclusive()
    }

    open spec fn accepts_tag(t: TypeTag) -> bool {
        t == TypeTag::String
    }

    fn from_value(v: Value) -> (r: Result<Self, VmError>) {
        match v {
            Value::String(c) => match c.try_read() {
                Ok(s) => Ok(string_into_boxed_str(s.clone())),
                Err(_) => Err(VmError::Borrow(BorrowError)),
            },
            actual => Err(VmError::ExpectedType(actual.type_info())),
        }
    }
}

impl<A: ToValue> ToValue for (A,) {
    open spec fn value_of(self, v: Value) -> bool {
        v matches Value::Tuple(c) && c.is_fresh() && c.payload()@.len() == 1 && self.0.value_of(
            c.payload()@[0],
        )
    }

    fn to_value(self) -> (r: Result<Value, VmError>) {
        let (a,) = self;
        let av = match a.to_value() {
            Ok(v) => v,
            Err(e) => {
                return Err(e);
            },
        };
        let mut items: Vec<Value> = Vec::new();
        items.push(av);
        Ok(Value::Tuple(Shared::new(items)))
    }
}

impl<A: ToValue, B: ToValue> ToValue for (A, B) {
    open spec fn value_of(self, v: Value) -> bool {
        v matches Value::Tuple(c) && c.is_fresh() && c.payload()@.len() == 2 && self.0.value_of(
            c.payload()@[0],
        ) && self.1.value_of(c.payload()@[1])
    }

    fn to_value(self) -> (r: Result<Value, VmError>) {
        let (a, b) = self;
        let av = match a.to_value() {
            Ok(v) => v,
            Err(e) => {
                return Err(e);
            },
        };
        let bv = match b.to_value() {
            Ok(v) => v,
            Err(e) => {
                return Err(e);
            },
        };
        let mut items: Vec<Value> = Vec::new();
        items.push(av);
        items.push(bv);
        Ok(Value::Tuple(Shared::new(items)))
    }
}

impl<A: ToValue, B: ToValue, C: ToValue> ToValue for (A, B, C) {
    open spec fn value_of(self, v: Value) -> bool {
        v matches Value::Tuple(c) && c.is_fresh() && c.payload()@.len() == 3 && self.0.value_of(
            c.payload()@[0],
        ) && self.1.value_of(c.payload()@[1]) && self.2.value_of(c.payload()@[2])
    }

    fn to_value(self) -> (r: Result<Value, VmError>) {
        let (a, b, c) = self;
        let av = match a.to_value() {
            Ok(v) => v,
            Err(e) => {
                return Err(e);
            },
        };
        let bv = match b.to_value() {
            Ok(v) => v,
            Err(e) => {
                return Err(e);
            },
        };
        let cv = match c.to_value() {
            Ok(v) => v,
            Err(e) => {
                return Err(e);
            },
        };
        let mut items: Vec<Value> = Vec::new();
        items.push(av);
        items.push(bv);
        items.push(cv);
        Ok(Value::Tuple(Shared::new(items)))
    }
}

impl<A: FromValue, B: FromValue> FromValue for (A, B) {
    open spec fn datum_of(v: Value, x: Self) -> bool {
        v matches Value::Tuple(c) && c.payload()@.len() == 2 && A::datum_of(c.payload()@[0], x.0)
            && B::datum_of(c.payload()@[1], x.1)
    }

    open spec fn convertible(v: Value) -> bool {
        v matches Value::Tuple(c) && c.is_fresh() && c.payload()@.len() == 2 && A::convertible(
            c.payload()@[0],
        ) && B::convertible(c.payload()@[1])
    }

    open spec fn accepts_tag(t: TypeTag) -> bool {
        t == TypeTag::Tuple
    }

    fn from_value(v: Value) -> (r: Result<Self, VmError>) {
        match v {
            Value::Tuple(c) => match c.take() {
                Ok(mut items) => {
                    if items.len() != 2 {
                        return Err(VmError::ExpectedType(crate::error::TypeTag::Tuple));
                    }
                    let second = match items.pop() {
                        Some(w) => w,
                        None => {
                            return Err(VmError::ExpectedType(crate::error::TypeTag::Tuple));
                        },
                    };
                    let first = match items.pop() {
                        Some(w) => w,
                        None => {
                            return Err(VmError::ExpectedType(crate::error::TypeTag::Tuple));
                        },
                    };
                    let a = match A::from_value(first) {
                        Ok(a) => a,
                        Err(e) => {
                            return Err(e);
                        },
                    };
                    let b = match B::from_value(second) {
                        Ok(b) => b,
                        Err(e) => {
                            return Err(e);
                        },
                    };
                    Ok((a, b))
                },
                Err(_) => Err(VmError::Borrow(BorrowError)),
            },
            actual => Err(VmError::ExpectedType(actual.type_info())),
        }
    }
}

impl<T: FromValue> FromValue for Vec<T> {
    open spec fn datum_of(v: Value, x: Self) -> bool {
        v matches Value::Vec(c) && x@.len() == c.payload()@.len() && (forall|i: int|
            0 <= i < x@.len() ==> T::datum_of(c.payload()@[i], #[trigger] x@[i]))
    }

    open spec fn convertible(v: Value) -> bool {
        v matches Value::Vec(c) && c.is_fresh() && (forall|i: int|
            0 <= i < c.payload()@.len() ==> T::convertible(#[trigger] c.payload()@[i]))
    }

    open spec fn accepts_tag(t: TypeTag) -> bool {
        t == TypeTag::Vec
    }

    fn from_value(v: Value) -> (r: Result<Self, VmError>) {
        match v {
            Value::Vec(c) => match c.take() {
                Ok(items) => {
                    let ghost all = items@;
                    let n = items.len();
                    let mut rest = items;
                    let mut out: Vec<T> = Vec::new();
                    proof {
                        assert(all.skip(0) =~= all);
                    }
                    let mut i: usize = 0;
                    while rest.len() > 0
                        invariant
                            n == all.len(),
                            out@.len() == i,
                            i <= n,
                            rest@ =~= all.skip(i as int),
                            rest@.len() == n - i,
                            forall|j: int|
                                0 <= j < i ==> T::datum_of(all[j], #[trigger] out@[j]),
                            <Vec<T> as FromValue>::convertible(v) ==> (forall|j: int|
                                0 <= j < all.len() ==> T::convertible(#[trigger] all[j])),
                            spec_type_tag(v) == TypeTag::Vec,
                        decreases n - i,
                    {
                        let w = rest.remove(0);
                        proof {
                            assert(all.skip(i as int)[0] == all[i as int]);
                            assert(w == all[i as int]);
                            assert forall|j: int|
                                0 <= j < n - i - 1 implies all.skip(i as int).remove(0)[j]
                                == all.skip(i as int + 1)[j] by {
                                assert(all.skip(i as int).remove(0)[j] == all.skip(i as int)[j
                                    + 1]);
                            }
                            assert(rest@ =~= all.skip(i as int + 1));
                        }
                        match T::from_value(w) {
                            Ok(y) => {
                                out.push(y);
                            },
                            Err(e) => {
                                proof {
                                    if <Vec<T> as FromValue>::convertible(v) {
                                        assert(T::convertible(all[i as int]));
                                    }
                                }
                                return Err(e);
                            },
                        }
                        i += 1;
                    }
                    Ok(out)
                },
                Err(_) => Err(VmError::Borrow(BorrowError)),
            },
            actual => Err(VmError::ExpectedType(actual.type_info())),
        }
    }
}

/// Begin a shared loan of the text behind a string value, for a host callee
/// that reads it by reference. A static string is interned and read-only, so
/// it needs no guard: the returned slot is empty. The loan on a mutable
/// string must be ended with [`release_string`].
pub fn borrow_string(v: &mut Value) -> (r: Result<Option<OwnedRef>, VmError>)
    ensures
        match *old(v) {
            Value::String(c) => {
                &&& (r matches Ok(g) ==> g is Some)
                &&& (r matches Ok(_) <==> !c.is_exclusive() && c.shared_count() < usize::MAX)
                &&& (*final(v) matches Value::String(c2) && c2.payload() == c.payload()
                    && c2.is_exclusive() == c.is_exclusive())
                &&& (r matches Ok(_) ==> *final(v) matches Value::String(c2) && c2.shared_count()
                    == c.shared_count() + 1)
                &&& (r matches Err(e) ==> e matches VmError::Borrow(BorrowError) && *final(v)
                    == *old(v))
            },
            Value::StaticString(_) => r == Ok::<Option<OwnedRef>, VmError>(None) && *final(v)
                == *old(v),
            _ => r matches Err(e) && e matches VmError::ExpectedType(t) && t == spec_type_tag(
                *old(v),
            ) && *final(v) == *old(v),
        },
{
    match v {
        Value::String(c) => match c.owned_ref() {
            Ok(g) => Ok(Some(g)),
            Err(_) => Err(VmError::Borrow(BorrowError)),
        },
        Value::StaticString(_) => Ok(None),
        actual => Err(VmError::ExpectedType(actual.type_info())),
    }
}

/// Begin an exclusive loan of the text behind a string value, for a host
/// callee that mutates it by reference. Only a mutable string can be loaned
/// out exclusively; the loan must be ended with [`release_string_mut`].
pub fn borrow_string_mut(v: &mut Value) -> (r: Result<OwnedMut, VmError>)
    ensures
        match *old(v) {
            Value::String(c) => {
                &&& (r matches Ok(_) <==> !c.is_exclusive() && c.shared_count() == 0)
                &&& (*final(v) matches Value::String(c2) && c2.payload() == c.payload()
                    && c2.shared_count() == c.shared_count())
                &&& (r matches Ok(_) ==> *final(v) matches Value::String(c2) && c2.is_exclusive())
                &&& (r matches Err(e) ==> e matches VmError::Borrow(BorrowError) && *final(v)
                    == *old(v))
            },
            _ => r matches Err(e) && e matches VmError::ExpectedType(t) && t == spec_type_tag(
                *old(v),
            ) && *final(v) == *old(v),
        },
{
    match v {
        Value::String(c) => match c.owned_mut() {
            Ok(g) => Ok(g),
            Err(_) => Err(VmError::Borrow(BorrowError)),
        },
        actual => Err(VmError::ExpectedType(actual.type_info())),
    }
}

/// End a shared loan of a string value by handing its guard back.
pub fn release_string(v: &mut Value, guard: OwnedRef)
    requires
        *old(v) matches Value::String(c) && c.shared_count() > 0,
    ensures
        *old(v) matches Value::String(c) ==> (*final(v) matches Value::String(c2) && c2.payload()
            == c.payload() && c2.shared_count() == c.shared_count() - 1 && c2.is_exclusive()
            == c.is_exclusive()),
{
    match v {
        Value::String(c) => c.release_owned_ref(guard),
        _ => {},
    }
}

/// End an exclusive loan of a string value by handing its guard back.
pub fn release_string_mut(v: &mut Value, guard: OwnedMut)
    requires
        *old(v) matches Value::String(c) && c.is_exclusive(),
    ensures
        *old(v) matches Value::String(c) ==> (*final(v) matches Value::String(c2) && c2.payload()
            == c.payload() && c2.shared_count() == c.shared_count() && !c2.is_exclusive()),
{
    match v {
        Value::String(c) => c.release_owned_mut(guard),
        _ => {},
    }
}

/// Begin a shared loan of the buffer behind a bytes value; end it with
/// [`release_bytes`].
pub fn borrow_bytes(v: &mut Value) -> (r: Result<OwnedRef, VmError>)
    ensures
        match *old(v) {
            Value::Bytes(c) => {
                &&& (r matches Ok(_) <==> !c.is_exclusive() && c.shared_count() < usize::MAX)
                &&& (*final(v) matches Value::Bytes(c2) && c2.payload() == c.payload()
                    && c2.is_exclusive() == c.is_exclusive())
                &&& (r matches Ok(_) ==> *final(v) matches Value::Bytes(c2) && c2.shared_count()
                    == c.shared_count() + 1)
                &&& (r matches Err(e) ==> e matches VmError::Borrow(BorrowError) && *final(v)
                    == *old(v))
            },
            _ => r matches Err(e) && e matches VmError::ExpectedType(t) && t == spec_type_tag(
                *old(v),
            ) && *final(v) == *old(v),
        },
{
    match v {
        Value::Bytes(c) => match c.owned_ref() {
            Ok(g) => Ok(g),
            Err(_) => Err(VmError::Borrow(BorrowError)),
        },
        actual => Err(VmError::ExpectedType(actual.type_info())),
    }
}

/// Begin an exclusive loan of the buffer behind a bytes value; end it with
/// [`release_bytes_mut`].
pub fn borrow_bytes_mut(v: &mut Value) -> (r: Result<OwnedMut, VmError>)
    ensures
        match *old(v) {
            Value::Bytes(c) => {
                &&& (r matches Ok(_) <==> !c.is_exclusive() && c.shared_count() == 0)
                &&& (*final(v) matches Value::Bytes(c2) && c2.payload() == c.payload()
                    && c2.shared_count() == c.shared_count())
                &&& (r matches Ok(_) ==> *final(v) matches Value::Bytes(c2) && c2.is_exclusive())
                &&& (r matches Err(e) ==> e matches VmError::Borrow(BorrowError) && *final(v)
                    == *old(v))
            },
            _ => r matches Err(e) && e matches VmError::ExpectedType(t) && t == spec_type_tag(
                *old(v),
            ) && *final(v) == *old(v),
        },
{
    match v {
        Value::Bytes(c) => match c.owned_mut() {
            Ok(g) => Ok(g),
            Err(_) => Err(VmError::Borrow(BorrowError)),
        },
        actual => Err(VmError::ExpectedType(actual.type_info())),
    }
}

/// End a shared loan of a bytes value by handing its guard back.
pub fn release_bytes(v: &mut Value, guard: OwnedRef)
    requires
        *old(v) matches Value::Bytes(c) && c.shared_count() > 0,
    ensures
        *old(v) matches Value::Bytes(c) ==> (*final(v) matches Value::Bytes(c2) && c2.payload()
            == c.payload() && c2.shared_count() == c.shared_count() - 1 && c2.is_exclusive()
            == c.is_exclusive()),
{
    match v {
        Value::Bytes(c) => c.release_owned_ref(guard),
        _ => {},
    }
}

/// End an exclusive loan of a bytes value by handing its guard back.
pub fn release_bytes_mut(v: &mut Value, guard: OwnedMut)
    requires
        *old(v) matches Value::Bytes(c) && c.is_exclusive(),
    ensures
        *old(v) matches Value::Bytes(c) ==> (*final(v) matches Value::Bytes(c2) && c2.payload()
            == c.payload() && c2.shared_count() == c.shared_count() && !c2.is_exclusive()),
{
    match v {
        Value::Bytes(c) => c.release_owned_mut(guard),
        _ => {},
    }
}

/// Begin a shared loan of the payload behind an option value; end it with
/// [`release_option`].
pub fn borrow_option(v: &mut Value) -> (r: Result<OwnedRef, VmError>)
    ensures
        match *old(v) {
            Value::Option(c) => {
                &&& (r matches Ok(_) <==> !c.is_exclusive() && c.shared_count() < usize::MAX)
                &&& (*final(v) matches Value::Option(c2) && c2.payload() == c.payload()
                    && c2.is_exclusive() == c.is_exclusive())
                &&& (r matches Ok(_) ==> *final(v) matches Value::Option(c2) && c2.shared_count()
                    == c.shared_count() + 1)
                &&& (r matches Err(e) ==> e matches VmError::Borrow(BorrowError) && *final(v)
                    == *old(v))
            },
            _ => r matches Err(e) && e matches VmError::ExpectedType(t) && t == spec_type_tag(
                *old(v),
            ) && *final(v) == *old(v),
        },
{
    match v {
        Value::Option(c) => match c.owned_ref() {
            Ok(g) => Ok(g),
            Err(_) => Err(VmError::Borrow(BorrowError)),
        },
        actual => Err(VmError::ExpectedType(actual.type_info())),
    }
}

/// Begin an exclusive loan of the payload behind an option value; end it
/// with [`release_option_mut`].
pub fn borrow_option_mut(v: &mut Value) -> (r: Result<OwnedMut, VmError>)
    ensures
        match *old(v) {
            Value::Option(c) => {
                &&& (r matches Ok(_) <==> !c.is_exclusive() && c.shared_count() == 0)
                &&& (*final(v) matches Value::Option(c2) && c2.payload() == c.payload()
                    && c2.shared_count() == c.shared_count())
                &&& (r matches Ok(_) ==> *final(v) matches Value::Option(c2) && c2.is_exclusive())
                &&& (r matches Err(e) ==> e matches VmError::Borrow(BorrowError) && *final(v)
                    == *old(v))
            },
            _ => r matches Err(e) && e matches VmError::ExpectedType(t) && t == spec_type_tag(
                *old(v),
            ) && *final(v) == *old(v),
        },
{
    match v {
        Value::Option(c) => match c.owned_mut() {
            Ok(g) => Ok(g),
            Err(_) => Err(VmError::Borrow(BorrowError)),
        },
        actual => Err(VmError::ExpectedType(actual.type_info())),
    }
}

/// End a shared loan of an option value by handing its guard back.
pub fn release_option(v: &mut Value, guard: OwnedRef)
    requires
        *old(v) matches Value::Option(c) && c.shared_count() > 0,
    ensures
        *old(v) matches Value::Option(c) ==> (*final(v) matches Value::Option(c2) && c2.payload()
            == c.payload() && c2.shared_count() == c.shared_count() - 1 && c2.is_exclusive()
            == c.is_exclusive()),
{
    match v {
        Value::Option(c) => c.release_owned_ref(guard),
        _ => {},
    }
}

/// End an exclusive loan of an option value by handing its guard back.
pub fn release_option_mut(v: &mut Value, guard: OwnedMut)
    requires
        *old(v) matches Value::Option(c) && c.is_exclusive(),
    ensures
        *old(v) matches Value::Option(c) ==> (*final(v) matches Value::Option(c2) && c2.payload()
            == c.payload() && c2.shared_count() == c.shared_count() && !c2.is_exclusive()),
{
    match v {
        Value::Option(c) => c.release_owned_mut(guard),
        _ => {},
    }
}


/// Begin a shared loan of the range behind a range value; end it with
/// [`release_range`].
pub fn borrow_range(v: &mut Value) -> (r: Result<OwnedRef, VmError>)
    ensures
        match *old(v) {
            Value::Range(c) => {
                &&& (r matches Ok(_) <==> !c.is_exclusive() && c.shared_count() < usize::MAX)
                &&& (*final(v) matches Value::Range(c2) && c2.payload() == c.payload()
                    && c2.is_exclusive() == c.is_exclusive())
                &&& (r matches Ok(_) ==> *final(v) matches Value::Range(c2) && c2.shared_count()
                    == c.shared_count() + 1)
                &&& (r matches Err(e) ==> e matches VmError::Borrow(BorrowError) && *final(v)
                    == *old(v))
            },
            _ => r matches Err(e) && e matches VmError::ExpectedType(t) && t == spec_type_tag(
                *old(v),
            ) && *final(v) == *old(v),
        },
{
    match v {
        Value::Range(c) => match c.owned_ref() {
            Ok(g) => Ok(g),
            Err(_) => Err(VmError::Borrow(BorrowError)),
        },
        actual => Err(VmError::ExpectedType(actual.type_info())),
    }
}

/// Begin an exclusive loan of the range behind a range value; end it with
/// [`release_range_mut`].
pub fn borrow_range_mut(v: &mut Value) -> (r: Result<OwnedMut, VmError>)
    ensures
        match *old(v) {
            Value::Range(c) => {
                &&& (r matches Ok(_) <==> !c.is_exclusive() && c.shared_count() == 0)
                &&& (*final(v) matches Value::Range(c2) && c2.payload() == c.payload()
                    && c2.shared_count() == c.shared_count())
                &&& (r matches Ok(_) ==> *final(v) matches Value::Range(c2) && c2.is_exclusive())
                &&& (r matches Err(e) ==> e matches VmError::Borrow(BorrowError) && *final(v)
                    == *old(v))
            },
            _ => r matches Err(e) && e matches VmError::ExpectedType(t) && t == spec_type_tag(
                *old(v),
            ) && *final(v) == *old(v),
        },
{
    match v {
        Value::Range(c) => match c.owned_mut() {
            Ok(g) => Ok(g),
            Err(_) => Err(VmError::Borrow(BorrowError)),
        },
        actual => Err(VmError::ExpectedType(actual.type_info())),
    }
}

/// End a shared loan of a range value by handing its guard back.
pub fn release_range(v: &mut Value, guard: OwnedRef)
    requires
        *old(v) matches Value::Range(c) && c.shared_count() > 0,
    ensures
        *old(v) matches Value::Range(c) ==> (*final(v) matches Value::Range(c2) && c2.payload()
            == c.payload() && c2.shared_count() == c.shared_count() - 1 && c2.is_exclusive()
            == c.is_exclusive()),
{
    match v {
        Value::Range(c) => c.release_owned_ref(guard),
        _ => {},
    }
}

/// End an exclusive loan of a range value by handing its guard back.
pub fn release_range_mut(v: &mut Value, guard: OwnedMut)
    requires
        *old(v) matches Value::Range(c) && c.is_exclusive(),
    ensures
        *old(v) matches Value::Range(c) ==> (*final(v) matches Value::Range(c2) && c2.payload()
            == c.payload() && c2.shared_count() == c.shared_count() && !c2.is_exclusive()),
{
    match v {
        Value::Range(c) => c.release_owned_mut(guard),
        _ => {},
    }
}

impl<T: ToValue> ToValue for Vec<T> {
    open spec fn value_of(self, v: Value) -> bool {
        v matches Value::Vec(c) && c.is_fresh() && c.payload()@.len() == self@.len() && (forall|
            i: int,
        |
            0 <= i < self@.len() ==> self@[i].value_of(#[trigger] c.payload()@[i]))
    }

    fn to_value(self) -> (r: Result<Value, VmError>) {
        let ghost all = self@;
        let mut out: Vec<Value> = Vec::new();
        let mut rest = self;
        let n: usize = rest.len();
        proof {
            assert(all.skip(0) =~= all);
        }
        let mut i: usize = 0;
        while rest.len() > 0
            invariant
                n == all.len(),
                out@.len() == i,
                i <= n,
                rest@ =~= all.skip(i as int),
                rest@.len() == n - i,
                forall|j: int| 0 <= j < i ==> all[j].value_of(#[trigger] out@[j]),
            decreases n - i,
        {
            let x = rest.remove(0);
            proof {
                assert(all.skip(i as int)[0] == all[i as int]);
                assert(x == all[i as int]);
                assert forall|j: int| 0 <= j < n - i - 1 implies all.skip(i as int).remove(0)[j]
                    == all.skip(i as int + 1)[j] by {
                    assert(all.skip(i as int).remove(0)[j] == all.skip(i as int)[j + 1]);
                }
                assert(rest@ =~= all.skip(i as int + 1));
            }
            match x.to_value() {
                Ok(w) => {
                    out.push(w);
                },
                Err(e) => {
                    return Err(e);
                },
            }
            i += 1;
        }
        Ok(Value::Vec(Shared::new(out)))
    }
}

} // verus!
