//! The tagged union representing every datum a script can hold, and its
//! structural, non-protocol equality.

use crate::error::BorrowError;
use crate::error::TypeTag;
use crate::error::VmError;
use crate::protocol::ProtocolCaller;
use core::cmp::Ordering;
use crate::range::Range;
use crate::shared::Shared;
use crate::variant::Variant;
use crate::variant::VariantData;
use vstd::prelude::*;

verus! {

broadcast use
    vstd::seq::axiom_seq_index_decreases,
    vstd::std_specs::vec::axiom_vec_index_decreases,
    vstd::std_specs::vec::axiom_vec_decreases_to_view,
    crate::shared::lemma_shared_payload_decreases;

/// A mutable octet buffer.
#[derive(Clone, Debug)]
pub struct Bytes {
    /// The octets held by the buffer.
    pub bytes: Vec<u8>,
}

/// A callable handle, addressed by its identity hash.
#[derive(Clone, Copy, Debug, PartialEq, Eq, Structural)]
pub struct FnHandle {
    /// The identity hash the virtual machine resolves the callable by.
    pub hash: crate::hash::Hash,
}

/// An opaque host object, visible to the runtime only through its type hash.
#[derive(Clone, Copy, Debug, PartialEq, Eq, Structural)]
pub struct AnyObj {
    /// The identity hash of the host type.
    pub type_hash: crate::hash::Hash,
}

/// The runtime value. Primitive cases are stored inline; composite cases
/// hold a [`Shared`] cell.
#[derive(Debug)]
pub enum Value {
    /// The unit value.
    Unit,
    /// A boolean.
    Bool(bool),
    /// An 8-bit unsigned integer.
    Byte(u8),
    /// A Unicode scalar.
    Char(char),
    /// A signed 64-bit integer.
    Integer(i64),
    /// An interned, read-only string handle.
    StaticString(String),
    /// A mutable text buffer.
    String(Shared<String>),
    /// A mutable octet buffer.
    Bytes(Shared<Bytes>),
    /// An ordered sequence of values.
    Vec(Shared<Vec<Value>>),
    /// A fixed-length sequence of values.
    Tuple(Shared<Vec<Value>>),
    /// A mapping from string keys to values, kept in insertion order.
    Object(Shared<Vec<(String, Value)>>),
    /// A range with optional endpoints.
    Range(Shared<Box<Range>>),
    /// An optional value.
    Option(Shared<Box<Option<Value>>>),
    /// A success-or-error value.
    Result(Shared<Box<Result<Value, Value>>>),
    /// A callable handle.
    Function(Shared<FnHandle>),
    /// An algebraic-data-type instance.
    Variant(Shared<Variant>),
    /// An opaque host object.
    Any(Shared<AnyObj>),
}

/// The tag of a value, as reported in conversion errors.
pub open spec fn spec_type_tag(v: Value) -> TypeTag {
    match v {
        Value::Unit => TypeTag::Unit,
        Value::Bool(_) => TypeTag::Bool,
        Value::Byte(_) => TypeTag::Byte,
        Value::Char(_) => TypeTag::Char,
        Value::Integer(_) => TypeTag::Integer,
        Value::StaticString(_) => TypeTag::StaticString,
        Value::String(_) => TypeTag::String,
        Value::Bytes(_) => TypeTag::Bytes,
        Value::Vec(_) => TypeTag::Vec,
        Value::Tuple(_) => TypeTag::Tuple,
        Value::Object(_) => TypeTag::Object,
        Value::Range(_) => TypeTag::Range,
        Value::Option(_) => TypeTag::Option,
        Value::Result(_) => TypeTag::Result,
        Value::Function(_) => TypeTag::Function,
        Value::Variant(_) => TypeTag::Variant,
        Value::Any(_) => TypeTag::Any,
    }
}

/// Structural equality of two values: equal tags and equal payloads,
/// element-wise for composites, ignoring the cells' borrow counters.
///
/// Host objects compare unequal: their identity lies outside the model.
pub open spec fn spec_value_eq(a: Value, b: Value) -> bool
    decreases a,
{
    match (a, b) {
        (Value::Unit, Value::Unit) => true,
        (Value::Bool(x), Value::Bool(y)) => x == y,
        (Value::Byte(x), Value::Byte(y)) => x == y,
        (Value::Char(x), Value::Char(y)) => x == y,
        (Value::Integer(x), Value::Integer(y)) => x == y,
        (Value::StaticString(x), Value::StaticString(y)) => x@ == y@,
        (Value::String(x), Value::String(y)) => x.payload()@ == y.payload()@,
        (Value::Bytes(x), Value::Bytes(y)) => x.payload().bytes@ == y.payload().bytes@,
        (Value::Vec(x), Value::Vec(y)) => spec_values_eq(x.payload()@, y.payload()@),
        (Value::Tuple(x), Value::Tuple(y)) => spec_values_eq(x.payload()@, y.payload()@),
        (Value::Object(x), Value::Object(y)) => spec_entries_eq(x.payload()@, y.payload()@),
        (Value::Range(x), Value::Range(y)) => spec_range_eq(*x.payload(), *y.payload()),
        (Value::Option(x), Value::Option(y)) => spec_option_eq(*x.payload(), *y.payload()),
        (Value::Result(x), Value::Result(y)) => spec_result_eq(*x.payload(), *y.payload()),
        (Value::Function(x), Value::Function(y)) => x.payload().hash == y.payload().hash,
        (Value::Variant(x), Value::Variant(y)) => spec_variant_eq(x.payload(), y.payload()),
        _ => false,
    }
}

/// Element-wise structural equality of two sequences of values.
pub open spec fn spec_values_eq(a: Seq<Value>, b: Seq<Value>) -> bool
    decreases a,
{
    a.len() == b.len() && (forall|i: int|
        0 <= i < a.len() ==> spec_value_eq(#[trigger] a[i], b[i]))
}

/// Entry-wise structural equality of two key/value sequences: same keys and
/// structurally equal values, in the same insertion order.
pub open spec fn spec_entries_eq(a: Seq<(String, Value)>, b: Seq<(String, Value)>) -> bool
    decreases a,
{
    a.len() == b.len() && (forall|i: int|
        0 <= i < a.len() ==> (#[trigger] a[i]).0@ == b[i].0@ && spec_value_eq(a[i].1, b[i].1))
}

/// Structural equality of two optional endpoint values.
pub open spec fn spec_option_eq(a: Option<Value>, b: Option<Value>) -> bool
    decreases a,
{
    match (a, b) {
        (None, None) => true,
        (Some(x), Some(y)) => spec_value_eq(x, y),
        _ => false,
    }
}

/// Structural equality of two success-or-error values.
pub open spec fn spec_result_eq(a: Result<Value, Value>, b: Result<Value, Value>) -> bool
    decreases a,
{
    match (a, b) {
        (Ok(x), Ok(y)) => spec_value_eq(x, y),
        (Err(x), Err(y)) => spec_value_eq(x, y),
        _ => false,
    }
}

/// Structural equality of two ranges: same limits and structurally equal
/// endpoints.
pub open spec fn spec_range_eq(a: Range, b: Range) -> bool
    decreases a,
{
    a.limits == b.limits && spec_option_eq(a.start, b.start) && spec_option_eq(a.end, b.end)
}

/// Structural equality of two variants: the same variant identity and
/// element-wise equal payloads of the same shape.
pub open spec fn spec_variant_eq(a: Variant, b: Variant) -> bool
    decreases a,
{
    a.rtti.hash == b.rtti.hash && match (a.data, b.data) {
        (VariantData::Empty, VariantData::Empty) => true,
        (VariantData::Tuple(x), VariantData::Tuple(y)) => spec_values_eq(x@, y@),
        (VariantData::Struct(x), VariantData::Struct(y)) => spec_values_eq(x@, y@),
        _ => false,
    }
}

/// Whether every cell reachable from the value can currently be read, that
/// is, no exclusive borrow is outstanding anywhere inside it.
pub open spec fn spec_value_readable(v: Value) -> bool
    decreases v,
{
    match v {
        Value::Unit => true,
        Value::Bool(_) => true,
        Value::Byte(_) => true,
        Value::Char(_) => true,
        Value::Integer(_) => true,
        Value::StaticString(_) => true,
        Value::String(c) => !c.is_exclusive(),
        Value::Bytes(c) => !c.is_exclusive(),
        Value::Vec(c) => !c.is_exclusive() && spec_values_readable(c.payload()@),
        Value::Tuple(c) => !c.is_exclusive() && spec_values_readable(c.payload()@),
        Value::Object(c) => !c.is_exclusive() && spec_entries_readable(c.payload()@),
        Value::Range(c) => !c.is_exclusive() && spec_option_readable((*c.payload()).start)
            && spec_option_readable((*c.payload()).end),
        Value::Option(c) => !c.is_exclusive() && spec_option_readable(*c.payload()),
        Value::Result(c) => !c.is_exclusive() && (match *c.payload() {
            Ok(x) => spec_value_readable(x),
            Err(x) => spec_value_readable(x),
        }),
        Value::Function(c) => !c.is_exclusive(),
        Value::Variant(c) => !c.is_exclusive() && spec_variant_readable(c.payload()),
        Value::Any(_) => true,
    }
}

/// Whether every value in a variant's payload is readable.
pub open spec fn spec_variant_readable(v: Variant) -> bool
    decreases v,
{
    match v.data {
        VariantData::Empty => true,
        VariantData::Tuple(x) => spec_values_readable(x@),
        VariantData::Struct(x) => spec_values_readable(x@),
    }
}

/// Whether every value in the sequence is readable.
pub open spec fn spec_values_readable(s: Seq<Value>) -> bool
    decreases s,
{
    forall|i: int| 0 <= i < s.len() ==> spec_value_readable(#[trigger] s[i])
}

/// Whether every value in the key/value sequence is readable.
pub open spec fn spec_entries_readable(s: Seq<(String, Value)>) -> bool
    decreases s,
{
    forall|i: int| 0 <= i < s.len() ==> spec_value_readable((#[trigger] s[i]).1)
}

/// Whether an optional endpoint value is readable.
pub open spec fn spec_option_readable(o: Option<Value>) -> bool
    decreases o,
{
    match o {
        None => true,
        Some(x) => spec_value_readable(x),
    }
}

impl Value {
    /// The tag of this value, as reported in conversion errors.
    pub fn type_info(&self) -> (t: TypeTag)
        ensures
            t == spec_type_tag(*self),
    {
        match self {
            Value::Unit => TypeTag::Unit,
            Value::Bool(_) => TypeTag::Bool,
            Value::Byte(_) => TypeTag::Byte,
            Value::Char(_) => TypeTag::Char,
            Value::Integer(_) => TypeTag::Integer,
            Value::StaticString(_) => TypeTag::StaticString,
            Value::String(_) => TypeTag::String,
            Value::Bytes(_) => TypeTag::Bytes,
            Value::Vec(_) => TypeTag::Vec,
            Value::Tuple(_) => TypeTag::Tuple,
            Value::Object(_) => TypeTag::Object,
            Value::Range(_) => TypeTag::Range,
            Value::Option(_) => TypeTag::Option,
            Value::Result(_) => TypeTag::Result,
            Value::Function(_) => TypeTag::Function,
            Value::Variant(_) => TypeTag::Variant,
            Value::Any(_) => TypeTag::Any,
        }
    }

    /// Move the cell out of a string value.
    pub fn into_string(self) -> (r: Result<Shared<String>, VmError>)
        ensures
            match self {
                Value::String(c) => r == Ok::<Shared<String>, VmError>(c),
                _ => r matches Err(e) && e matches VmError::ExpectedType(t) && t == spec_type_tag(
                    self,
                ),
            },
    {
        match self {
            Value::String(c) => Ok(c),
            actual => Err(VmError::ExpectedType(actual.type_info())),
        }
    }

    /// Move the cell out of a bytes value.
    pub fn into_bytes(self) -> (r: Result<Shared<Bytes>, VmError>)
        ensures
            match self {
                Value::Bytes(c) => r == Ok::<Shared<Bytes>, VmError>(c),
                _ => r matches Err(e) && e matches VmError::ExpectedType(t) && t == spec_type_tag(
                    self,
                ),
            },
    {
        match self {
            Value::Bytes(c) => Ok(c),
            actual => Err(VmError::ExpectedType(actual.type_info())),
        }
    }

    /// Move the cell out of a range value.
    pub fn into_range(self) -> (r: Result<Shared<Box<Range>>, VmError>)
        ensures
            match self {
                Value::Range(c) => r == Ok::<Shared<Box<Range>>, VmError>(c),
                _ => r matches Err(e) && e matches VmError::ExpectedType(t) && t == spec_type_tag(
                    self,
                ),
            },
    {
        match self {
            Value::Range(c) => Ok(c),
            actual => Err(VmError::ExpectedType(actual.type_info())),
        }
    }

    /// Move the cell out of an option value.
    pub fn into_option(self) -> (r: Result<Shared<Box<Option<Value>>>, VmError>)
        ensures
            match self {
                Value::Option(c) => r == Ok::<Shared<Box<Option<Value>>>, VmError>(c),
                _ => r matches Err(e) && e matches VmError::ExpectedType(t) && t == spec_type_tag(
                    self,
                ),
            },
    {
        match self {
            Value::Option(c) => Ok(c),
            actual => Err(VmError::ExpectedType(actual.type_info())),
        }
    }

    /// Move the cell out of a tuple value.
    pub fn into_tuple(self) -> (r: Result<Shared<Vec<Value>>, VmError>)
        ensures
            match self {
                Value::Tuple(c) => r == Ok::<Shared<Vec<Value>>, VmError>(c),
                _ => r matches Err(e) && e matches VmError::ExpectedType(t) && t == spec_type_tag(
                    self,
                ),
            },
    {
        match self {
            Value::Tuple(c) => Ok(c),
            actual => Err(VmError::ExpectedType(actual.type_info())),
        }
    }

    /// Move the cell out of a variant value.
    pub fn into_variant(self) -> (r: Result<Shared<Variant>, VmError>)
        ensures
            match self {
                Value::Variant(c) => r == Ok::<Shared<Variant>, VmError>(c),
                _ => r matches Err(e) && e matches VmError::ExpectedType(t) && t == spec_type_tag(
                    self,
                ),
            },
    {
        match self {
            Value::Variant(c) => Ok(c),
            actual => Err(VmError::ExpectedType(actual.type_info())),
        }
    }

    /// Structural, non-protocol equality of two values: composite containers
    /// compare element-wise, primitives by value, distinct cases are unequal.
    ///
    /// Fails with a borrow error exactly where a cell that must be read is
    /// exclusively borrowed; when both values are fully readable it always
    /// succeeds.
    pub fn value_ptr_eq(a: &Value, b: &Value) -> (r: Result<bool, VmError>)
        ensures
            r matches Ok(eq) ==> eq == spec_value_eq(*a, *b),
            spec_value_readable(*a) && spec_value_readable(*b) ==> r matches Ok(_),
            r matches Err(e) ==> e matches VmError::Borrow(BorrowError),
        decreases *a,
    {
        match (a, b) {
            (Value::Unit, Value::Unit) => Ok(true),
            (Value::Bool(x), Value::Bool(y)) => Ok(*x == *y),
            (Value::Byte(x), Value::Byte(y)) => Ok(*x == *y),
            (Value::Char(x), Value::Char(y)) => Ok(*x == *y),
            (Value::Integer(x), Value::Integer(y)) => Ok(*x == *y),
            (Value::StaticString(x), Value::StaticString(y)) => Ok(*x == *y),
            (Value::String(x), Value::String(y)) => {
                match (x.try_read(), y.try_read()) {
                    (Ok(sx), Ok(sy)) => Ok(*sx == *sy),
                    _ => Err(VmError::Borrow(BorrowError)),
                }
            },
            (Value::Bytes(x), Value::Bytes(y)) => {
                match (x.try_read(), y.try_read()) {
                    (Ok(bx), Ok(by)) => Ok(bytes_eq(&bx.bytes, &by.bytes)),
                    _ => Err(VmError::Borrow(BorrowError)),
                }
            },
            (Value::Vec(x), Value::Vec(y)) => {
                match (x.try_read(), y.try_read()) {
                    (Ok(vx), Ok(vy)) => Self::values_ptr_eq(vx, vy),
                    _ => Err(VmError::Borrow(BorrowError)),
                }
            },
            (Value::Tuple(x), Value::Tuple(y)) => {
                match (x.try_read(), y.try_read()) {
                    (Ok(vx), Ok(vy)) => Self::values_ptr_eq(vx, vy),
                    _ => Err(VmError::Borrow(BorrowError)),
                }
            },
            (Value::Object(x), Value::Object(y)) => {
                match (x.try_read(), y.try_read()) {
                    (Ok(ex), Ok(ey)) => Self::entries_ptr_eq(ex, ey),
                    _ => Err(VmError::Borrow(BorrowError)),
                }
            },
            (Value::Range(x), Value::Range(y)) => {
                match (x.try_read(), y.try_read()) {
                    (Ok(rx), Ok(ry)) => Range::value_ptr_eq(&**rx, &**ry),
                    _ => Err(VmError::Borrow(BorrowError)),
                }
            },
            (Value::Option(x), Value::Option(y)) => {
                match (x.try_read(), y.try_read()) {
                    (Ok(ox), Ok(oy)) => Self::option_ptr_eq(&**ox, &**oy),
                    _ => Err(VmError::Borrow(BorrowError)),
                }
            },
            (Value::Result(x), Value::Result(y)) => {
                match (x.try_read(), y.try_read()) {
                    (Ok(rx), Ok(ry)) => {
                        match (&**rx, &**ry) {
                            (Ok(vx), Ok(vy)) => Self::value_ptr_eq(vx, vy),
                            (Err(vx), Err(vy)) => Self::value_ptr_eq(vx, vy),
                            _ => Ok(false),
                        }
                    },
                    _ => Err(VmError::Borrow(BorrowError)),
                }
            },
            (Value::Function(x), Value::Function(y)) => {
                match (x.try_read(), y.try_read()) {
                    (Ok(fx), Ok(fy)) => Ok(fx.hash.0 == fy.hash.0),
                    _ => Err(VmError::Borrow(BorrowError)),
                }
            },
            (Value::Variant(x), Value::Variant(y)) => {
                match (x.try_read(), y.try_read()) {
                    (Ok(vx), Ok(vy)) => Self::variant_ptr_eq(vx, vy),
                    _ => Err(VmError::Borrow(BorrowError)),
                }
            },
            _ => Ok(false),
        }
    }

    /// Element-wise structural equality of two value vectors.
    fn values_ptr_eq(a: &Vec<Value>, b: &Vec<Value>) -> (r: Result<bool, VmError>)
        ensures
            r matches Ok(eq) ==> eq == spec_values_eq(a@, b@),
            spec_values_readable(a@) && spec_values_readable(b@) ==> r matches Ok(_),
            r matches Err(e) ==> e matches VmError::Borrow(BorrowError),
        decreases *a,
    {
        if a.len() != b.len() {
            return Ok(false);
        }
        let n = a.len();
        let mut i: usize = 0;
        while i < n
            invariant
                n == a.len() == b.len(),
                i <= n,
                forall|j: int| 0 <= j < i ==> spec_value_eq(#[trigger] a@[j], b@[j]),
            decreases n - i,
        {
            match Self::value_ptr_eq(&a[i], &b[i]) {
                Ok(true) => {},
                Ok(false) => {
                    return Ok(false);
                },
                Err(e) => {
                    return Err(e);
                },
            }
            i += 1;
        }
        Ok(true)
    }

    /// Entry-wise structural equality of two key/value vectors.
    fn entries_ptr_eq(a: &Vec<(String, Value)>, b: &Vec<(String, Value)>) -> (r: Result<
        bool,
        VmError,
    >)
        ensures
            r matches Ok(eq) ==> eq == spec_entries_eq(a@, b@),
            spec_entries_readable(a@) && spec_entries_readable(b@) ==> r matches Ok(_),
            r matches Err(e) ==> e matches VmError::Borrow(BorrowError),
        decreases *a,
    {
        if a.len() != b.len() {
            return Ok(false);
        }
        let n = a.len();
        let mut i: usize = 0;
        while i < n
            invariant
                n == a.len() == b.len(),
                i <= n,
                forall|j: int|
                    0 <= j < i ==> (#[trigger] a@[j]).0@ == b@[j].0@ && spec_value_eq(
                        a@[j].1,
                        b@[j].1,
                    ),
            decreases n - i,
        {
            let ka: &String = &a[i].0;
            let kb: &String = &b[i].0;
            if !(*ka == *kb) {
                return Ok(false);
            }
            match Self::value_ptr_eq(&a[i].1, &b[i].1) {
                Ok(true) => {},
                Ok(false) => {
                    return Ok(false);
                },
                Err(e) => {
                    return Err(e);
                },
            }
            i += 1;
        }
        Ok(true)
    }

    /// Structural equality of two optional values.
    pub(crate) fn option_ptr_eq(a: &Option<Value>, b: &Option<Value>) -> (r: Result<bool, VmError>)
        ensures
            r matches Ok(eq) ==> eq == spec_option_eq(*a, *b),
            spec_option_readable(*a) && spec_option_readable(*b) ==> r matches Ok(_),
            r matches Err(e) ==> e matches VmError::Borrow(BorrowError),
        decreases *a,
    {
        match (a, b) {
            (None, None) => Ok(true),
            (Some(x), Some(y)) => Self::value_ptr_eq(x, y),
            _ => Ok(false),
        }
    }

    /// Structural equality of two variants: identity hash and payload.
    fn variant_ptr_eq(a: &Variant, b: &Variant) -> (r: Result<bool, VmError>)
        ensures
            r matches Ok(eq) ==> eq == spec_variant_eq(*a, *b),
            spec_variant_readable(*a) && spec_variant_readable(*b) ==> r matches Ok(_),
            r matches Err(e) ==> e matches VmError::Borrow(BorrowError),
        decreases *a,
    {
        if a.rtti.hash.0 != b.rtti.hash.0 {
            return Ok(false);
        }
        match (&a.data, &b.data) {
            (VariantData::Empty, VariantData::Empty) => Ok(true),
            (VariantData::Tuple(x), VariantData::Tuple(y)) => Self::values_ptr_eq(x, y),
            (VariantData::Struct(x), VariantData::Struct(y)) => Self::values_ptr_eq(x, y),
            _ => Ok(false),
        }
    }
}

/// Whether two values are primitives of the same tag, whose ordering the
/// runtime decides natively, without the protocol indirection.
pub open spec fn spec_prim_pair(a: Value, b: Value) -> bool {
    match (a, b) {
        (Value::Unit, Value::Unit) => true,
        (Value::Bool(_), Value::Bool(_)) => true,
        (Value::Byte(_), Value::Byte(_)) => true,
        (Value::Char(_), Value::Char(_)) => true,
        (Value::Integer(_), Value::Integer(_)) => true,
        _ => false,
    }
}

/// The ordering of two integers.
pub open spec fn spec_cmp_int(x: int, y: int) -> Ordering {
    if x < y {
        Ordering::Less
    } else if x == y {
        Ordering::Equal
    } else {
        Ordering::Greater
    }
}

/// The native ordering of two primitives of the same tag: units are equal,
/// booleans order false before true, the numeric cases order by value and
/// characters by Unicode scalar. Other pairs have no native ordering.
pub open spec fn spec_prim_cmp(a: Value, b: Value) -> Option<Ordering> {
    match (a, b) {
        (Value::Unit, Value::Unit) => Some(Ordering::Equal),
        (Value::Bool(x), Value::Bool(y)) => Some(
            spec_cmp_int(
                if x {
                    1int
                } else {
                    0int
                },
                if y {
                    1int
                } else {
                    0int
                },
            ),
        ),
        (Value::Byte(x), Value::Byte(y)) => Some(spec_cmp_int(x as int, y as int)),
        (Value::Char(x), Value::Char(y)) => Some(spec_cmp_int(x as u32 as int, y as u32 as int)),
        (Value::Integer(x), Value::Integer(y)) => Some(spec_cmp_int(x as int, y as int)),
        _ => None,
    }
}

/// Whether no value in the sequence is a host object at top level, so that
/// comparing the sequence never consults the protocol caller.
pub open spec fn spec_values_protocol_free(s: Seq<Value>) -> bool {
    forall|i: int| 0 <= i < s.len() ==> !((#[trigger] s[i]) matches Value::Any(_))
}

/// The ordering of two i64 values.
fn cmp_i64(x: i64, y: i64) -> (o: Ordering)
    ensures
        o == spec_cmp_int(x as int, y as int),
{
    if x < y {
        Ordering::Less
    } else if x == y {
        Ordering::Equal
    } else {
        Ordering::Greater
    }
}

impl Value {
    /// Equality through the protocol indirection: host objects are compared
    /// by the user-installed protocol, every other value structurally, so on
    /// values free of host objects the result is pinned down.
    pub fn partial_eq_with<C: ProtocolCaller>(a: &Value, b: &Value, caller: &mut C) -> (r: Result<
        bool,
        VmError,
    >)
        ensures
            !(*a matches Value::Any(_)) && !(*b matches Value::Any(_)) ==> {
                &&& (r matches Ok(eq) ==> eq == spec_value_eq(*a, *b))
                &&& (spec_value_readable(*a) && spec_value_readable(*b) ==> r matches Ok(_))
                &&& (r matches Err(e) ==> e matches VmError::Borrow(BorrowError))
            },
    {
        match (a, b) {
            (Value::Any(_), _) => caller.call_partial_eq(a, b),
            (_, Value::Any(_)) => caller.call_partial_eq(a, b),
            _ => Self::value_ptr_eq(a, b),
        }
    }

    /// Total equality through the protocol indirection; structurally the
    /// same comparison as [`Value::partial_eq_with`], under the protocol for
    /// total equality.
    pub fn eq_with<C: ProtocolCaller>(a: &Value, b: &Value, caller: &mut C) -> (r: Result<
        bool,
        VmError,
    >)
        ensures
            !(*a matches Value::Any(_)) && !(*b matches Value::Any(_)) ==> {
                &&& (r matches Ok(eq) ==> eq == spec_value_eq(*a, *b))
                &&& (spec_value_readable(*a) && spec_value_readable(*b) ==> r matches Ok(_))
                &&& (r matches Err(e) ==> e matches VmError::Borrow(BorrowError))
            },
    {
        match (a, b) {
            (Value::Any(_), _) => caller.call_eq(a, b),
            (_, Value::Any(_)) => caller.call_eq(a, b),
            _ => Self::value_ptr_eq(a, b),
        }
    }

    /// Partial ordering through the protocol indirection: primitives of the
    /// same tag are ordered natively; every other pair is handed to the
    /// user-installed protocol.
    pub fn partial_cmp_with<C: ProtocolCaller>(a: &Value, b: &Value, caller: &mut C) -> (r: Result<
        Option<Ordering>,
        VmError,
    >)
        ensures
            spec_prim_pair(*a, *b) ==> r == Ok::<Option<Ordering>, VmError>(spec_prim_cmp(*a, *b)),
    {
        match (a, b) {
            (Value::Unit, Value::Unit) => Ok(Some(Ordering::Equal)),
            (Value::Bool(x), Value::Bool(y)) => Ok(
                Some(
                    cmp_i64(
                        if *x {
                            1
                        } else {
                            0
                        },
                        if *y {
                            1
                        } else {
                            0
                        },
                    ),
                ),
            ),
            (Value::Byte(x), Value::Byte(y)) => Ok(Some(cmp_i64(*x as i64, *y as i64))),
            (Value::Char(x), Value::Char(y)) => Ok(
                Some(cmp_i64(*x as u32 as i64, *y as u32 as i64)),
            ),
            (Value::Integer(x), Value::Integer(y)) => Ok(Some(cmp_i64(*x, *y))),
            _ => caller.call_partial_cmp(a, b),
        }
    }

    /// Total ordering through the protocol indirection: primitives of the
    /// same tag are ordered natively; every other pair is handed to the
    /// user-installed protocol.
    pub fn cmp_with<C: ProtocolCaller>(a: &Value, b: &Value, caller: &mut C) -> (r: Result<
        Ordering,
        VmError,
    >)
        ensures
            spec_prim_pair(*a, *b) ==> (r matches Ok(o) && Some(o) == spec_prim_cmp(*a, *b)),
    {
        match (a, b) {
            (Value::Unit, Value::Unit) => Ok(Ordering::Equal),
            (Value::Bool(x), Value::Bool(y)) => Ok(
                cmp_i64(
                    if *x {
                        1
                    } else {
                        0
                    },
                    if *y {
                        1
                    } else {
                        0
                    },
                ),
            ),
            (Value::Byte(x), Value::Byte(y)) => Ok(cmp_i64(*x as i64, *y as i64)),
            (Value::Char(x), Value::Char(y)) => Ok(cmp_i64(*x as u32 as i64, *y as u32 as i64)),
            (Value::Integer(x), Value::Integer(y)) => Ok(cmp_i64(*x, *y)),
            _ => caller.call_cmp(a, b),
        }
    }
}

impl From<i64> for Value {
    /// A signed 64-bit integer converts to the inline integer case.
    fn from(i: i64) -> (r: Value) {
        Value::Integer(i)
    }
}

impl vstd::std_specs::convert::FromSpecImpl<i64> for Value {
    open spec fn obeys_from_spec() -> bool {
        true
    }

    open spec fn from_spec(i: i64) -> Value {
        Value::Integer(i)
    }
}

/// Equality of two octet buffers.
fn bytes_eq(a: &Vec<u8>, b: &Vec<u8>) -> (r: bool)
    ensures
        r == (a@ == b@),
{
    if a.len() != b.len() {
        proof {
            assert(a@ != b@);
        }
        return false;
    }
    let n = a.len();
    let mut i: usize = 0;
    while i < n
        invariant
            n == a.len() == b.len(),
            i <= n,
            forall|j: int| 0 <= j < i ==> a@[j] == b@[j],
        decreases n - i,
    {
        if a[i] != b[i] {
            return false;
        }
        i += 1;
    }
    proof {
        assert(a@ =~= b@);
    }
    true
}

} // verus!
