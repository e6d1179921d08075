//! The protocol caller: the indirection through which user-defined
//! comparison operators are invoked on contained values.

use crate::error::VmError;
use crate::value::Value;
use core::cmp::Ordering;
use vstd::prelude::*;

verus! {

/// An indirection through which user-overloaded operators are invoked during
/// structural comparison. The virtual machine implements this against its
/// dispatch tables; nothing is promised of the results, so everything proved
/// of the comparisons holds whatever a caller answers.
pub trait ProtocolCaller {
    /// Invoke the user-defined partial-equality protocol on two values.
    fn call_partial_eq(&mut self, a: &Value, b: &Value) -> Result<bool, VmError>;

    /// Invoke the user-defined total-equality protocol on two values.
    fn call_eq(&mut self, a: &Value, b: &Value) -> Result<bool, VmError>;

    /// Invoke the user-defined partial-ordering protocol on two values.
    fn call_partial_cmp(&mut self, a: &Value, b: &Value) -> Result<Option<Ordering>, VmError>;

    /// Invoke the user-defined total-ordering protocol on two values.
    fn call_cmp(&mut self, a: &Value, b: &Value) -> Result<Ordering, VmError>;
}

/// A protocol caller for contexts with no user-defined operators installed:
/// every protocol call unwinds with a missing-protocol panic.
pub struct NoProtocolCaller;

impl ProtocolCaller for NoProtocolCaller {
    fn call_partial_eq(&mut self, _a: &Value, _b: &Value) -> Result<bool, VmError> {
        Err(VmError::Panic("missing protocol".to_owned()))
    }

    fn call_eq(&mut self, _a: &Value, _b: &Value) -> Result<bool, VmError> {
        Err(VmError::Panic("missing protocol".to_owned()))
    }

    fn call_partial_cmp(&mut self, _a: &Value, _b: &Value) -> Result<Option<Ordering>, VmError> {
        Err(VmError::Panic("missing protocol".to_owned()))
    }

    fn call_cmp(&mut self, _a: &Value, _b: &Value) -> Result<Ordering, VmError> {
        Err(VmError::Panic("missing protocol".to_owned()))
    }
}

} // verus!
