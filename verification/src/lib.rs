//! Core value and call runtime of an embeddable dynamic scripting language.
//!
//! The crate provides the identity scheme that names types, functions and
//! structural keys as 64-bit hashes, the shared cell with dynamic borrow
//! tracking that every composite runtime value sits behind, the tagged
//! `Value` union itself, algebraic-data-type instances with runtime type
//! info, the range primitive with its iteration contract, and the reflection
//! layer that moves host data across the call boundary.

pub mod args;
pub mod ast;
pub mod error;
pub mod hash;
pub mod protocol;
pub mod range;
pub mod reflect;
pub mod shared;
pub mod span;
pub mod value;
pub mod variant;
