//! The error kinds the runtime distinguishes.

use vstd::prelude::*;

verus! {

/// The tag of a runtime value, used to report what a conversion actually saw.
#[derive(Clone, Copy, PartialEq, Eq, Structural, Debug)]
pub enum TypeTag {
    /// The unit value.
    Unit,
    /// A boolean.
    Bool,
    /// An 8-bit unsigned integer.
    Byte,
    /// A Unicode scalar.
    Char,
    /// A signed 64-bit integer.
    Integer,
    /// An interned read-only string.
    StaticString,
    /// A mutable text buffer.
    String,
    /// A mutable octet buffer.
    Bytes,
    /// An ordered sequence of values.
    Vec,
    /// A fixed-length sequence of values.
    Tuple,
    /// A mapping from string keys to values, in insertion order.
    Object,
    /// A range with optional endpoints.
    Range,
    /// An optional value.
    Option,
    /// A success-or-error value.
    Result,
    /// A callable handle.
    Function,
    /// An algebraic-data-type instance.
    Variant,
    /// An opaque host object.
    Any,
}

/// Raised when the dynamic borrow discipline of a shared cell is violated.
#[derive(Clone, Copy, PartialEq, Eq, Structural, Debug)]
pub struct BorrowError;

/// The aggregate error returned from every host-visible entrypoint.
#[derive(Clone, PartialEq, Eq, Debug)]
pub enum VmError {
    /// A conversion saw a value whose tag did not match; carries the tag it
    /// actually saw.
    ExpectedType(TypeTag),
    /// The borrow discipline was violated at runtime.
    Borrow(BorrowError),
    /// An unrecoverable invariant breach inside the virtual machine, unwound
    /// as a VM-level panic distinct from a native process panic.
    Panic(String),
}

} // verus!
