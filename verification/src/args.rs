//! Argument packing: the contract between host argument tuples and the
//! operand stack the interpreter reads them from.

use crate::error::VmError;
use crate::reflect::ToValue;
use crate::value::Value;
use vstd::prelude::*;

verus! {

/// The operand stack used by the interpreter.
pub struct Stack {
    items: Vec<Value>,
}

impl Stack {
    /// The values on the stack, bottom first.
    pub closed spec fn items(self) -> Seq<Value> {
        self.items@
    }

    /// Construct an empty stack.
    pub fn new() -> (s: Stack)
        ensures
            s.items() == Seq::<Value>::empty(),
    {
        Stack { items: Vec::new() }
    }

    /// The number of values on the stack.
    pub fn len(&self) -> (n: usize)
        ensures
            n == self.items().len(),
    {
        self.items.len()
    }

    /// Push a value on top of the stack.
    pub fn push(&mut self, v: Value)
        ensures
            final(self).items() == old(self).items().push(v),
    {
        self.items.push(v);
    }

    /// Pop the top value off the stack.
    pub fn pop(&mut self) -> (r: Option<Value>)
        ensures
            old(self).items().len() == 0 ==> r is None && final(self).items() == old(self).items(),
            old(self).items().len() > 0 ==> r == Some(old(self).items().last())
                && final(self).items() == old(self).items().drop_last(),
    {
        self.items.pop()
    }

    /// Clear the stack. Callers that encoded borrow-backed values must clear
    /// the stack before the borrowed sources are released.
    pub fn clear(&mut self)
        ensures
            final(self).items() == Seq::<Value>::empty(),
    {
        self.items = Vec::new();
    }
}

/// The convention for passing a host argument tuple to the interpreter.
///
/// Arguments are encoded in positional order, either onto the operand stack
/// or into a vector. The implementor may place borrow-backed values on the
/// stack; the caller must clear the stack before the borrowed sources are
/// released.
pub trait Args: Sized {
    /// Whether `vs` is a faithful encoding of the arguments, one value per
    /// argument in positional order.
    spec fn args_of(self, vs: Seq<Value>) -> bool;

    /// The arity of the tuple.
    spec fn spec_count() -> nat;

    /// Encode the arguments onto a stack, in positional order, on top of
    /// what the stack already holds.
    fn into_stack(self, stack: &mut Stack) -> (r: Result<(), VmError>)
        ensures
            r matches Ok(_),
            final(stack).items().len() == old(stack).items().len() + Self::spec_count(),
            final(stack).items().take(old(stack).items().len() as int) == old(stack).items(),
            self.args_of(final(stack).items().skip(old(stack).items().len() as int)),
    ;

    /// Encode the arguments as a vector, in positional order.
    fn into_vec(self) -> (r: Result<Vec<Value>, VmError>)
        ensures
            r matches Ok(vs) && vs@.len() == Self::spec_count() && self.args_of(vs@),
    ;

    /// The number of arguments.
    fn count() -> (n: usize)
        ensures
            n == Self::spec_count(),
    ;
}

impl Args for () {
    open spec fn args_of(self, vs: Seq<Value>) -> bool {
        vs.len() == 0
    }

    open spec fn spec_count() -> nat {
        0
    }

    fn into_stack(self, stack: &mut Stack) -> (r: Result<(), VmError>) {
        proof {
            assert(stack.items().take(stack.items().len() as int) =~= stack.items());
            assert(stack.items().skip(stack.items().len() as int) =~= Seq::<Value>::empty());
        }
        Ok(())
    }

    fn into_vec(self) -> (r: Result<Vec<Value>, VmError>) {
        Ok(Vec::new())
    }

    fn count() -> (n: usize) {
        0
    }
}

impl<A: ToValue> Args for (A,) {
    open spec fn args_of(self, vs: Seq<Value>) -> bool {
        vs.len() == 1 && self.0.value_of(vs[0])
    }

    open spec fn spec_count() -> nat {
        1
    }

    fn into_stack(self, stack: &mut Stack) -> (r: Result<(), VmError>) {
        let (x0,) = self;
        let v0 = match x0.to_value() {
            Ok(v) => v,
            Err(e) => {
                return Err(e);
            },
        };
        let ghost base = stack.items();
        stack.push(v0);
        proof {
            assert(stack.items().take(base.len() as int) =~= base);
            assert(stack.items().skip(base.len() as int) =~= seq![v0]);
        }
        Ok(())
    }

    fn into_vec(self) -> (r: Result<Vec<Value>, VmError>) {
        let (x0,) = self;
        let v0 = match x0.to_value() {
            Ok(v) => v,
            Err(e) => {
                return Err(e);
            },
        };
        let mut out: Vec<Value> = Vec::new();
        out.push(v0);
        Ok(out)
    }

    fn count() -> (n: usize) {
        1
    }
}

impl<A: ToValue, B: ToValue> Args for (A, B) {
    open spec fn args_of(self, vs: Seq<Value>) -> bool {
        vs.len() == 2 && self.0.value_of(vs[0]) && self.1.value_of(vs[1])
    }

    open spec fn spec_count() -> nat {
        2
    }

    fn into_stack(self, stack: &mut Stack) -> (r: Result<(), VmError>) {
        let (x0, x1) = self;
        let v0 = match x0.to_value() {
            Ok(v) => v,
            Err(e) => {
                return Err(e);
            },
        };
        let v1 = match x1.to_value() {
            Ok(v) => v,
            Err(e) => {
                return Err(e);
            },
        };
        let ghost base = stack.items();
        stack.push(v0);
        stack.push(v1);
        proof {
            assert(stack.items().take(base.len() as int) =~= base);
            assert(stack.items().skip(base.len() as int) =~= seq![v0, v1]);
        }
        Ok(())
    }

    fn into_vec(self) -> (r: Result<Vec<Value>, VmError>) {
        let (x0, x1) = self;
        let v0 = match x0.to_value() {
            Ok(v) => v,
            Err(e) => {
                return Err(e);
            },
        };
        let v1 = match x1.to_value() {
            Ok(v) => v,
            Err(e) => {
                return Err(e);
            },
        };
        let mut out: Vec<Value> = Vec::new();
        out.push(v0);
        out.push(v1);
        Ok(out)
    }

    fn count() -> (n: usize) {
        2
    }
}

impl<A: ToValue, B: ToValue, C: ToValue> Args for (A, B, C) {
    open spec fn args_of(self, vs: Seq<Value>) -> bool {
        vs.len() == 3 && self.0.value_of(vs[0]) && self.1.value_of(vs[1]) && self.2.value_of(vs[2])
    }

    open spec fn spec_count() -> nat {
        3
    }

    fn into_stack(self, stack: &mut Stack) -> (r: Result<(), VmError>) {
        let (x0, x1, x2) = self;
        let v0 = match x0.to_value() {
            Ok(v) => v,
            Err(e) => {
                return Err(e);
            },
        };
        let v1 = match x1.to_value() {
            Ok(v) => v,
            Err(e) => {
                return Err(e);
            },
        };
        let v2 = match x2.to_value() {
            Ok(v) => v,
            Err(e) => {
                return Err(e);
            },
        };
        let ghost base = stack.items();
        stack.push(v0);
        stack.push(v1);
        stack.push(v2);
        proof {
            assert(stack.items().take(base.len() as int) =~= base);
            assert(stack.items().skip(base.len() as int) =~= seq![v0, v1, v2]);
        }
        Ok(())
    }

    fn into_vec(self) -> (r: Result<Vec<Value>, VmError>) {
        let (x0, x1, x2) = self;
        let v0 = match x0.to_value() {
            Ok(v) => v,
            Err(e) => {
                return Err(e);
            },
        };
        let v1 = match x1.to_value() {
            Ok(v) => v,
            Err(e) => {
                return Err(e);
            },
        };
        let v2 = match x2.to_value() {
            Ok(v) => v,
            Err(e) => {
                return Err(e);
            },
        };
        let mut out: Vec<Value> = Vec::new();
        out.push(v0);
        out.push(v1);
        out.push(v2);
        Ok(out)
    }

    fn count() -> (n: usize) {
        3
    }
}

impl<A: ToValue, B: ToValue, C: ToValue, D: ToValue> Args for (A, B, C, D) {
    open spec fn args_of(self, vs: Seq<Value>) -> bool {
        vs.len() == 4 && self.0.value_of(vs[0]) && self.1.value_of(vs[1]) && self.2.value_of(vs[2]) && self.3.value_of(vs[3])
    }

    open spec fn spec_count() -> nat {
        4
    }

    fn into_stack(self, stack: &mut Stack) -> (r: Result<(), VmError>) {
        let (x0, x1, x2, x3) = self;
        let v0 = match x0.to_value() {
            Ok(v) => v,
            Err(e) => {
                return Err(e);
            },
        };
        let v1 = match x1.to_value() {
            Ok(v) => v,
            Err(e) => {
                return Err(e);
            },
        };
        let v2 = match x2.to_value() {
            Ok(v) => v,
            Err(e) => {
                return Err(e);
            },
        };
        let v3 = match x3.to_value() {
            Ok(v) => v,
            Err(e) => {
                return Err(e);
            },
        };
        let ghost base = stack.items();
        stack.push(v0);
        stack.push(v1);
        stack.push(v2);
        stack.push(v3);
        proof {
            assert(stack.items().take(base.len() as int) =~= base);
            assert(stack.items().skip(base.len() as int) =~= seq![v0, v1, v2, v3]);
        }
        Ok(())
    }

    fn into_vec(self) -> (r: Result<Vec<Value>, VmError>) {
        let (x0, x1, x2, x3) = self;
        let v0 = match x0.to_value() {
            Ok(v) => v,
            Err(e) => {
                return Err(e);
            },
        };
        let v1 = match x1.to_value() {
            Ok(v) => v,
            Err(e) => {
                return Err(e);
            },
        };
        let v2 = match x2.to_value() {
            Ok(v) => v,
            Err(e) => {
                return Err(e);
            },
        };
        let v3 = match x3.to_value() {
            Ok(v) => v,
            Err(e) => {
                return Err(e);
            },
        };
        let mut out: Vec<Value> = Vec::new();
        out.push(v0);
        out.push(v1);
        out.push(v2);
        out.push(v3);
        Ok(out)
    }

    fn count() -> (n: usize) {
        4
    }
}

impl<A: ToValue, B: ToValue, C: ToValue, D: ToValue, E: ToValue> Args for (A, B, C, D, E) {
    open spec fn args_of(self, vs: Seq<Value>) -> bool {
        vs.len() == 5 && self.0.value_of(vs[0]) && self.1.value_of(vs[1]) && self.2.value_of(vs[2]) && self.3.value_of(vs[3]) && self.4.value_of(vs[4])
    }

    open spec fn spec_count() -> nat {
        5
    }

    fn into_stack(self, stack: &mut Stack) -> (r: Result<(), VmError>) {
        let (x0, x1, x2, x3, x4) = self;
        let v0 = match x0.to_value() {
            Ok(v) => v,
            Err(e) => {
                return Err(e);
            },
        };
        let v1 = match x1.to_value() {
            Ok(v) => v,
            Err(e) => {
                return Err(e);
            },
        };
        let v2 = match x2.to_value() {
            Ok(v) => v,
            Err(e) => {
                return Err(e);
            },
        };
        let v3 = match x3.to_value() {
            Ok(v) => v,
            Err(e) => {
                return Err(e);
            },
        };
        let v4 = match x4.to_value() {
            Ok(v) => v,
            Err(e) => {
                return Err(e);
            },
        };
        let ghost base = stack.items();
        stack.push(v0);
        stack.push(v1);
        stack.push(v2);
        stack.push(v3);
        stack.push(v4);
        proof {
            assert(stack.items().take(base.len() as int) =~= base);
            assert(stack.items().skip(base.len() as int) =~= seq![v0, v1, v2, v3, v4]);
        }
        Ok(())
    }

    fn into_vec(self) -> (r: Result<Vec<Value>, VmError>) {
        let (x0, x1, x2, x3, x4) = self;
        let v0 = match x0.to_value() {
            Ok(v) => v,
            Err(e) => {
                return Err(e);
            },
        };
        let v1 = match x1.to_value() {
            Ok(v) => v,
            Err(e) => {
                return Err(e);
            },
        };
        let v2 = match x2.to_value() {
            Ok(v) => v,
            Err(e) => {
                return Err(e);
            },
        };
        let v3 = match x3.to_value() {
            Ok(v) => v,
            Err(e) => {
                return Err(e);
            },
        };
        let v4 = match x4.to_value() {
            Ok(v) => v,
            Err(e) => {
                return Err(e);
            },
        };
        let mut out: Vec<Value> = Vec::new();
        out.push(v0);
        out.push(v1);
        out.push(v2);
        out.push(v3);
        out.push(v4);
        Ok(out)
    }

    fn count() -> (n: usize) {
        5
    }
}

impl<A: ToValue, B: ToValue, C: ToValue, D: ToValue, E: ToValue, F: ToValue> Args for (A, B, C, D, E, F) {
    open spec fn args_of(self, vs: Seq<Value>) -> bool {
        vs.len() == 6 && self.0.value_of(vs[0]) && self.1.value_of(vs[1]) && self.2.value_of(vs[2]) && self.3.value_of(vs[3]) && self.4.value_of(vs[4]) && self.5.value_of(vs[5])
    }

    open spec fn spec_count() -> nat {
        6
    }

    fn into_stack(self, stack: &mut Stack) -> (r: Result<(), VmError>) {
        let (x0, x1, x2, x3, x4, x5) = self;
        let v0 = match x0.to_value() {
            Ok(v) => v,
            Err(e) => {
                return Err(e);
            },
        };
        let v1 = match x1.to_value() {
            Ok(v) => v,
            Err(e) => {
                return Err(e);
            },
        };
        let v2 = match x2.to_value() {
            Ok(v) => v,
            Err(e) => {
                return Err(e);
            },
        };
        let v3 = match x3.to_value() {
            Ok(v) => v,
            Err(e) => {
                return Err(e);
            },
        };
        let v4 = match x4.to_value() {
            Ok(v) => v,
            Err(e) => {
                return Err(e);
            },
        };
        let v5 = match x5.to_value() {
            Ok(v) => v,
            Err(e) => {
                return Err(e);
            },
        };
        let ghost base = stack.items();
        stack.push(v0);
        stack.push(v1);
        stack.push(v2);
        stack.push(v3);
        stack.push(v4);
        stack.push(v5);
        proof {
            assert(stack.items().take(base.len() as int) =~= base);
            assert(stack.items().skip(base.len() as int) =~= seq![v0, v1, v2, v3, v4, v5]);
        }
        Ok(())
    }

    fn into_vec(self) -> (r: Result<Vec<Value>, VmError>) {
        let (x0, x1, x2, x3, x4, x5) = self;
        let v0 = match x0.to_value() {
            Ok(v) => v,
            Err(e) => {
                return Err(e);
            },
        };
        let v1 = match x1.to_value() {
            Ok(v) => v,
            Err(e) => {
                return Err(e);
            },
        };
        let v2 = match x2.to_value() {
            Ok(v) => v,
            Err(e) => {
                return Err(e);
            },
        };
        let v3 = match x3.to_value() {
            Ok(v) => v,
            Err(e) => {
                return Err(e);
            },
        };
        let v4 = match x4.to_value() {
            Ok(v) => v,
            Err(e) => {
                return Err(e);
            },
        };
        let v5 = match x5.to_value() {
            Ok(v) => v,
            Err(e) => {
                return Err(e);
            },
        };
        let mut out: Vec<Value> = Vec::new();
        out.push(v0);
        out.push(v1);
        out.push(v2);
        out.push(v3);
        out.push(v4);
        out.push(v5);
        Ok(out)
    }

    fn count() -> (n: usize) {
        6
    }
}

impl<A: ToValue, B: ToValue, C: ToValue, D: ToValue, E: ToValue, F: ToValue, G: ToValue> Args for (A, B, C, D, E, F, G) {
    open spec fn args_of(self, vs: Seq<Value>) -> bool {
        vs.len() == 7 && self.0.value_of(vs[0]) && self.1.value_of(vs[1]) && self.2.value_of(vs[2]) && self.3.value_of(vs[3]) && self.4.value_of(vs[4]) && self.5.value_of(vs[5]) && self.6.value_of(vs[6])
    }

    open spec fn spec_count() -> nat {
        7
    }

    fn into_stack(self, stack: &mut Stack) -> (r: Result<(), VmError>) {
        let (x0, x1, x2, x3, x4, x5, x6) = self;
        let v0 = match x0.to_value() {
            Ok(v) => v,
            Err(e) => {
                return Err(e);
            },
        };
        let v1 = match x1.to_value() {
            Ok(v) => v,
            Err(e) => {
                return Err(e);
            },
        };
        let v2 = match x2.to_value() {
            Ok(v) => v,
            Err(e) => {
                return Err(e);
            },
        };
        let v3 = match x3.to_value() {
            Ok(v) => v,
            Err(e) => {
                return Err(e);
            },
        };
        let v4 = match x4.to_value() {
            Ok(v) => v,
            Err(e) => {
                return Err(e);
            },
        };
        let v5 = match x5.to_value() {
            Ok(v) => v,
            Err(e) => {
                return Err(e);
            },
        };
        let v6 = match x6.to_value() {
            Ok(v) => v,
            Err(e) => {
                return Err(e);
            },
        };
        let ghost base = stack.items();
        stack.push(v0);
        stack.push(v1);
        stack.push(v2);
        stack.push(v3);
        stack.push(v4);
        stack.push(v5);
        stack.push(v6);
        proof {
            assert(stack.items().take(base.len() as int) =~= base);
            assert(stack.items().skip(base.len() as int) =~= seq![v0, v1, v2, v3, v4, v5, v6]);
        }
        Ok(())
    }

    fn into_vec(self) -> (r: Result<Vec<Value>, VmError>) {
        let (x0, x1, x2, x3, x4, x5, x6) = self;
        let v0 = match x0.to_value() {
            Ok(v) => v,
            Err(e) => {
                return Err(e);
            },
        };
        let v1 = match x1.to_value() {
            Ok(v) => v,
            Err(e) => {
                return Err(e);
            },
        };
        let v2 = match x2.to_value() {
            Ok(v) => v,
            Err(e) => {
                return Err(e);
            },
        };
        let v3 = match x3.to_value() {
            Ok(v) => v,
            Err(e) => {
                return Err(e);
            },
        };
        let v4 = match x4.to_value() {
            Ok(v) => v,
            Err(e) => {
                return Err(e);
            },
        };
        let v5 = match x5.to_value() {
            Ok(v) => v,
            Err(e) => {
                return Err(e);
            },
        };
        let v6 = match x6.to_value() {
            Ok(v) => v,
            Err(e) => {
                return Err(e);
            },
        };
        let mut out: Vec<Value> = Vec::new();
        out.push(v0);
        out.push(v1);
        out.push(v2);
        out.push(v3);
        out.push(v4);
        out.push(v5);
        out.push(v6);
        Ok(out)
    }

    fn count() -> (n: usize) {
        7
    }
}

impl<A: ToValue, B: ToValue, C: ToValue, D: ToValue, E: ToValue, F: ToValue, G: ToValue, H: ToValue> Args for (A, B, C, D, E, F, G, H) {
    open spec fn args_of(self, vs: Seq<Value>) -> bool {
        vs.len() == 8 && self.0.value_of(vs[0]) && self.1.value_of(vs[1]) && self.2.value_of(vs[2]) && self.3.value_of(vs[3]) && self.4.value_of(vs[4]) && self.5.value_of(vs[5]) && self.6.value_of(vs[6]) && self.7.value_of(vs[7])
    }

    open spec fn spec_count() -> nat {
        8
    }

    fn into_stack(self, stack: &mut Stack) -> (r: Result<(), VmError>) {
        let (x0, x1, x2, x3, x4, x5, x6, x7) = self;
        let v0 = match x0.to_value() {
            Ok(v) => v,
            Err(e) => {
                return Err(e);
            },
        };
        let v1 = match x1.to_value() {
            Ok(v) => v,
            Err(e) => {
                return Err(e);
            },
        };
        let v2 = match x2.to_value() {
            Ok(v) => v,
            Err(e) => {
                return Err(e);
            },
        };
        let v3 = match x3.to_value() {
            Ok(v) => v,
            Err(e) => {
                return Err(e);
            },
        };
        let v4 = match x4.to_value() {
            Ok(v) => v,
            Err(e) => {
                return Err(e);
            },
        };
        let v5 = match x5.to_value() {
            Ok(v) => v,
            Err(e) => {
                return Err(e);
            },
        };
        let v6 = match x6.to_value() {
            Ok(v) => v,
            Err(e) => {
                return Err(e);
            },
        };
        let v7 = match x7.to_value() {
            Ok(v) => v,
            Err(e) => {
                return Err(e);
            },
        };
        let ghost base = stack.items();
        stack.push(v0);
        stack.push(v1);
        stack.push(v2);
        stack.push(v3);
        stack.push(v4);
        stack.push(v5);
        stack.push(v6);
        stack.push(v7);
        proof {
            assert(stack.items().take(base.len() as int) =~= base);
            assert(stack.items().skip(base.len() as int) =~= seq![v0, v1, v2, v3, v4, v5, v6, v7]);
        }
        Ok(())
    }

    fn into_vec(self) -> (r: Result<Vec<Value>, VmError>) {
        let (x0, x1, x2, x3, x4, x5, x6, x7) = self;
        let v0 = match x0.to_value() {
            Ok(v) => v,
            Err(e) => {
                return Err(e);
            },
        };
        let v1 = match x1.to_value() {
            Ok(v) => v,
            Err(e) => {
                return Err(e);
            },
        };
        let v2 = match x2.to_value() {
            Ok(v) => v,
            Err(e) => {
                return Err(e);
            },
        };
        let v3 = match x3.to_value() {
            Ok(v) => v,
            Err(e) => {
                return Err(e);
            },
        };
        let v4 = match x4.to_value() {
            Ok(v) => v,
            Err(e) => {
                return Err(e);
            },
        };
        let v5 = match x5.to_value() {
            Ok(v) => v,
            Err(e) => {
                return Err(e);
            },
        };
        let v6 = match x6.to_value() {
            Ok(v) => v,
            Err(e) => {
                return Err(e);
            },
        };
        let v7 = match x7.to_value() {
            Ok(v) => v,
            Err(e) => {
                return Err(e);
            },
        };
        let mut out: Vec<Value> = Vec::new();
        out.push(v0);
        out.push(v1);
        out.push(v2);
        out.push(v3);
        out.push(v4);
        out.push(v5);
        out.push(v6);
        out.push(v7);
        Ok(out)
    }

    fn count() -> (n: usize) {
        8
    }
}

impl<A: ToValue, B: ToValue, C: ToValue, D: ToValue, E: ToValue, F: ToValue, G: ToValue, H: ToValue, I: ToValue> Args for (A, B, C, D, E, F, G, H, I) {
    open spec fn args_of(self, vs: Seq<Value>) -> bool {
        vs.len() == 9 && self.0.value_of(vs[0]) && self.1.value_of(vs[1]) && self.2.value_of(vs[2]) && self.3.value_of(vs[3]) && self.4.value_of(vs[4]) && self.5.value_of(vs[5]) && self.6.value_of(vs[6]) && self.7.value_of(vs[7]) && self.8.value_of(vs[8])
    }

    open spec fn spec_count() -> nat {
        9
    }

    fn into_stack(self, stack: &mut Stack) -> (r: Result<(), VmError>) {
        let (x0, x1, x2, x3, x4, x5, x6, x7, x8) = self;
        let v0 = match x0.to_value() {
            Ok(v) => v,
            Err(e) => {
                return Err(e);
            },
        };
        let v1 = match x1.to_value() {
            Ok(v) => v,
            Err(e) => {
                return Err(e);
            },
        };
        let v2 = match x2.to_value() {
            Ok(v) => v,
            Err(e) => {
                return Err(e);
            },
        };
        let v3 = match x3.to_value() {
            Ok(v) => v,
            Err(e) => {
                return Err(e);
            },
        };
        let v4 = match x4.to_value() {
            Ok(v) => v,
            Err(e) => {
                return Err(e);
            },
        };
        let v5 = match x5.to_value() {
            Ok(v) => v,
            Err(e) => {
                return Err(e);
            },
        };
        let v6 = match x6.to_value() {
            Ok(v) => v,
            Err(e) => {
                return Err(e);
            },
        };
        let v7 = match x7.to_value() {
            Ok(v) => v,
            Err(e) => {
                return Err(e);
            },
        };
        let v8 = match x8.to_value() {
            Ok(v) => v,
            Err(e) => {
                return Err(e);
            },
        };
        let ghost base = stack.items();
        stack.push(v0);
        stack.push(v1);
        stack.push(v2);
        stack.push(v3);
        stack.push(v4);
        stack.push(v5);
        stack.push(v6);
        stack.push(v7);
        stack.push(v8);
        proof {
            assert(stack.items().take(base.len() as int) =~= base);
            assert(stack.items().skip(base.len() as int) =~= seq![v0, v1, v2, v3, v4, v5, v6, v7, v8]);
        }
        Ok(())
    }

    fn into_vec(self) -> (r: Result<Vec<Value>, VmError>) {
        let (x0, x1, x2, x3, x4, x5, x6, x7, x8) = self;
        let v0 = match x0.to_value() {
            Ok(v) => v,
            Err(e) => {
                return Err(e);
            },
        };
        let v1 = match x1.to_value() {
            Ok(v) => v,
            Err(e) => {
                return Err(e);
            },
        };
        let v2 = match x2.to_value() {
            Ok(v) => v,
            Err(e) => {
                return Err(e);
            },
        };
        let v3 = match x3.to_value() {
            Ok(v) => v,
            Err(e) => {
                return Err(e);
            },
        };
        let v4 = match x4.to_value() {
            Ok(v) => v,
            Err(e) => {
                return Err(e);
            },
        };
        let v5 = match x5.to_value() {
            Ok(v) => v,
            Err(e) => {
                return Err(e);
            },
        };
        let v6 = match x6.to_value() {
            Ok(v) => v,
            Err(e) => {
                return Err(e);
            },
        };
        let v7 = match x7.to_value() {
            Ok(v) => v,
            Err(e) => {
                return Err(e);
            },
        };
        let v8 = match x8.to_value() {
            Ok(v) => v,
            Err(e) => {
                return Err(e);
            },
        };
        let mut out: Vec<Value> = Vec::new();
        out.push(v0);
        out.push(v1);
        out.push(v2);
        out.push(v3);
        out.push(v4);
        out.push(v5);
        out.push(v6);
        out.push(v7);
        out.push(v8);
        Ok(out)
    }

    fn count() -> (n: usize) {
        9
    }
}

impl<A: ToValue, B: ToValue, C: ToValue, D: ToValue, E: ToValue, F: ToValue, G: ToValue, H: ToValue, I: ToValue, J: ToValue> Args for (A, B, C, D, E, F, G, H, I, J) {
    open spec fn args_of(self, vs: Seq<Value>) -> bool {
        vs.len() == 10 && self.0.value_of(vs[0]) && self.1.value_of(vs[1]) && self.2.value_of(vs[2]) && self.3.value_of(vs[3]) && self.4.value_of(vs[4]) && self.5.value_of(vs[5]) && self.6.value_of(vs[6]) && self.7.value_of(vs[7]) && self.8.value_of(vs[8]) && self.9.value_of(vs[9])
    }

    open spec fn spec_count() -> nat {
        10
    }

    fn into_stack(self, stack: &mut Stack) -> (r: Result<(), VmError>) {
        let (x0, x1, x2, x3, x4, x5, x6, x7, x8, x9) = self;
        let v0 = match x0.to_value() {
            Ok(v) => v,
            Err(e) => {
                return Err(e);
            },
        };
        let v1 = match x1.to_value() {
            Ok(v) => v,
            Err(e) => {
                return Err(e);
            },
        };
        let v2 = match x2.to_value() {
            Ok(v) => v,
            Err(e) => {
                return Err(e);
            },
        };
        let v3 = match x3.to_value() {
            Ok(v) => v,
            Err(e) => {
                return Err(e);
            },
        };
        let v4 = match x4.to_value() {
            Ok(v) => v,
            Err(e) => {
                return Err(e);
            },
        };
        let v5 = match x5.to_value() {
            Ok(v) => v,
            Err(e) => {
                return Err(e);
            },
        };
        let v6 = match x6.to_value() {
            Ok(v) => v,
            Err(e) => {
                return Err(e);
            },
        };
        let v7 = match x7.to_value() {
            Ok(v) => v,
            Err(e) => {
                return Err(e);
            },
        };
        let v8 = match x8.to_value() {
            Ok(v) => v,
            Err(e) => {
                return Err(e);
            },
        };
        let v9 = match x9.to_value() {
            Ok(v) => v,
            Err(e) => {
                return Err(e);
            },
        };
        let ghost base = stack.items();
        stack.push(v0);
        stack.push(v1);
        stack.push(v2);
        stack.push(v3);
        stack.push(v4);
        stack.push(v5);
        stack.push(v6);
        stack.push(v7);
        stack.push(v8);
        stack.push(v9);
        proof {
            assert(stack.items().take(base.len() as int) =~= base);
            assert(stack.items().skip(base.len() as int) =~= seq![v0, v1, v2, v3, v4, v5, v6, v7, v8, v9]);
        }
        Ok(())
    }

    fn into_vec(self) -> (r: Result<Vec<Value>, VmError>) {
        let (x0, x1, x2, x3, x4, x5, x6, x7, x8, x9) = self;
        let v0 = match x0.to_value() {
            Ok(v) => v,
            Err(e) => {
                return Err(e);
            },
        };
        let v1 = match x1.to_value() {
            Ok(v) => v,
            Err(e) => {
                return Err(e);
            },
        };
        let v2 = match x2.to_value() {
            Ok(v) => v,
            Err(e) => {
                return Err(e);
            },
        };
        let v3 = match x3.to_value() {
            Ok(v) => v,
            Err(e) => {
                return Err(e);
            },
        };
        let v4 = match x4.to_value() {
            Ok(v) => v,
            Err(e) => {
                return Err(e);
            },
        };
        let v5 = match x5.to_value() {
            Ok(v) => v,
            Err(e) => {
                return Err(e);
            },
        };
        let v6 = match x6.to_value() {
            Ok(v) => v,
            Err(e) => {
                return Err(e);
            },
        };
        let v7 = match x7.to_value() {
            Ok(v) => v,
            Err(e) => {
                return Err(e);
            },
        };
        let v8 = match x8.to_value() {
            Ok(v) => v,
            Err(e) => {
                return Err(e);
            },
        };
        let v9 = match x9.to_value() {
            Ok(v) => v,
            Err(e) => {
                return Err(e);
            },
        };
        let mut out: Vec<Value> = Vec::new();
        out.push(v0);
        out.push(v1);
        out.push(v2);
        out.push(v3);
        out.push(v4);
        out.push(v5);
        out.push(v6);
        out.push(v7);
        out.push(v8);
        out.push(v9);
        Ok(out)
    }

    fn count() -> (n: usize) {
        10
    }
}

impl<A: ToValue, B: ToValue, C: ToValue, D: ToValue, E: ToValue, F: ToValue, G: ToValue, H: ToValue, I: ToValue, J: ToValue, K: ToValue> Args for (A, B, C, D, E, F, G, H, I, J, K) {
    open spec fn args_of(self, vs: Seq<Value>) -> bool {
        vs.len() == 11 && self.0.value_of(vs[0]) && self.1.value_of(vs[1]) && self.2.value_of(vs[2]) && self.3.value_of(vs[3]) && self.4.value_of(vs[4]) && self.5.value_of(vs[5]) && self.6.value_of(vs[6]) && self.7.value_of(vs[7]) && self.8.value_of(vs[8]) && self.9.value_of(vs[9]) && self.10.value_of(vs[10])
    }

    open spec fn spec_count() -> nat {
        11
    }

    fn into_stack(self, stack: &mut Stack) -> (r: Result<(), VmError>) {
        let (x0, x1, x2, x3, x4, x5, x6, x7, x8, x9, x10) = self;
        let v0 = match x0.to_value() {
            Ok(v) => v,
            Err(e) => {
                return Err(e);
            },
        };
        let v1 = match x1.to_value() {
            Ok(v) => v,
            Err(e) => {
                return Err(e);
            },
        };
        let v2 = match x2.to_value() {
            Ok(v) => v,
            Err(e) => {
                return Err(e);
            },
        };
        let v3 = match x3.to_value() {
            Ok(v) => v,
            Err(e) => {
                return Err(e);
            },
        };
        let v4 = match x4.to_value() {
            Ok(v) => v,
            Err(e) => {
                return Err(e);
            },
        };
        let v5 = match x5.to_value() {
            Ok(v) => v,
            Err(e) => {
                return Err(e);
            },
        };
        let v6 = match x6.to_value() {
            Ok(v) => v,
            Err(e) => {
                return Err(e);
            },
        };
        let v7 = match x7.to_value() {
            Ok(v) => v,
            Err(e) => {
                return Err(e);
            },
        };
        let v8 = match x8.to_value() {
            Ok(v) => v,
            Err(e) => {
                return Err(e);
            },
        };
        let v9 = match x9.to_value() {
            Ok(v) => v,
            Err(e) => {
                return Err(e);
            },
        };
        let v10 = match x10.to_value() {
            Ok(v) => v,
            Err(e) => {
                return Err(e);
            },
        };
        let ghost base = stack.items();
        stack.push(v0);
        stack.push(v1);
        stack.push(v2);
        stack.push(v3);
        stack.push(v4);
        stack.push(v5);
        stack.push(v6);
        stack.push(v7);
        stack.push(v8);
        stack.push(v9);
        stack.push(v10);
        proof {
            assert(stack.items().take(base.len() as int) =~= base);
            assert(stack.items().skip(base.len() as int) =~= seq![v0, v1, v2, v3, v4, v5, v6, v7, v8, v9, v10]);
        }
        Ok(())
    }

    fn into_vec(self) -> (r: Result<Vec<Value>, VmError>) {
        let (x0, x1, x2, x3, x4, x5, x6, x7, x8, x9, x10) = self;
        let v0 = match x0.to_value() {
            Ok(v) => v,
            Err(e) => {
                return Err(e);
            },
        };
        let v1 = match x1.to_value() {
            Ok(v) => v,
            Err(e) => {
                return Err(e);
            },
        };
        let v2 = match x2.to_value() {
            Ok(v) => v,
            Err(e) => {
                return Err(e);
            },
        };
        let v3 = match x3.to_value() {
            Ok(v) => v,
            Err(e) => {
                return Err(e);
            },
        };
        let v4 = match x4.to_value() {
            Ok(v) => v,
            Err(e) => {
                return Err(e);
            },
        };
        let v5 = match x5.to_value() {
            Ok(v) => v,
            Err(e) => {
                return Err(e);
            },
        };
        let v6 = match x6.to_value() {
            Ok(v) => v,
            Err(e) => {
                return Err(e);
            },
        };
        let v7 = match x7.to_value() {
            Ok(v) => v,
            Err(e) => {
                return Err(e);
            },
        };
        let v8 = match x8.to_value() {
            Ok(v) => v,
            Err(e) => {
                return Err(e);
            },
        };
        let v9 = match x9.to_value() {
            Ok(v) => v,
            Err(e) => {
                return Err(e);
            },
        };
        let v10 = match x10.to_value() {
            Ok(v) => v,
            Err(e) => {
                return Err(e);
            },
        };
        let mut out: Vec<Value> = Vec::new();
        out.push(v0);
        out.push(v1);
        out.push(v2);
        out.push(v3);
        out.push(v4);
        out.push(v5);
        out.push(v6);
        out.push(v7);
        out.push(v8);
        out.push(v9);
        out.push(v10);
        Ok(out)
    }

    fn count() -> (n: usize) {
        11
    }
}

impl<A: ToValue, B: ToValue, C: ToValue, D: ToValue, E: ToValue, F: ToValue, G: ToValue, H: ToValue, I: ToValue, J: ToValue, K: ToValue, L: ToValue> Args for (A, B, C, D, E, F, G, H, I, J, K, L) {
    open spec fn args_of(self, vs: Seq<Value>) -> bool {
        vs.len() == 12 && self.0.value_of(vs[0]) && self.1.value_of(vs[1]) && self.2.value_of(vs[2]) && self.3.value_of(vs[3]) && self.4.value_of(vs[4]) && self.5.value_of(vs[5]) && self.6.value_of(vs[6]) && self.7.value_of(vs[7]) && self.8.value_of(vs[8]) && self.9.value_of(vs[9]) && self.10.value_of(vs[10]) && self.11.value_of(vs[11])
    }

    open spec fn spec_count() -> nat {
        12
    }

    fn into_stack(self, stack: &mut Stack) -> (r: Result<(), VmError>) {
        let (x0, x1, x2, x3, x4, x5, x6, x7, x8, x9, x10, x11) = self;
        let v0 = match x0.to_value() {
            Ok(v) => v,
            Err(e) => {
                return Err(e);
            },
        };
        let v1 = match x1.to_value() {
            Ok(v) => v,
            Err(e) => {
                return Err(e);
            },
        };
        let v2 = match x2.to_value() {
            Ok(v) => v,
            Err(e) => {
                return Err(e);
            },
        };
        let v3 = match x3.to_value() {
            Ok(v) => v,
            Err(e) => {
                return Err(e);
            },
        };
        let v4 = match x4.to_value() {
            Ok(v) => v,
            Err(e) => {
                return Err(e);
            },
        };
        let v5 = match x5.to_value() {
            Ok(v) => v,
            Err(e) => {
                return Err(e);
            },
        };
        let v6 = match x6.to_value() {
            Ok(v) => v,
            Err(e) => {
                return Err(e);
            },
        };
        let v7 = match x7.to_value() {
            Ok(v) => v,
            Err(e) => {
                return Err(e);
            },
        };
        let v8 = match x8.to_value() {
            Ok(v) => v,
            Err(e) => {
                return Err(e);
            },
        };
        let v9 = match x9.to_value() {
            Ok(v) => v,
            Err(e) => {
                return Err(e);
            },
        };
        let v10 = match x10.to_value() {
            Ok(v) => v,
            Err(e) => {
                return Err(e);
            },
        };
        let v11 = match x11.to_value() {
            Ok(v) => v,
            Err(e) => {
                return Err(e);
            },
        };
        let ghost base = stack.items();
        stack.push(v0);
        stack.push(v1);
        stack.push(v2);
        stack.push(v3);
        stack.push(v4);
        stack.push(v5);
        stack.push(v6);
        stack.push(v7);
        stack.push(v8);
        stack.push(v9);
        stack.push(v10);
        stack.push(v11);
        proof {
            assert(stack.items().take(base.len() as int) =~= base);
            assert(stack.items().skip(base.len() as int) =~= seq![v0, v1, v2, v3, v4, v5, v6, v7, v8, v9, v10, v11]);
        }
        Ok(())
    }

    fn into_vec(self) -> (r: Result<Vec<Value>, VmError>) {
        let (x0, x1, x2, x3, x4, x5, x6, x7, x8, x9, x10, x11) = self;
        let v0 = match x0.to_value() {
            Ok(v) => v,
            Err(e) => {
                return Err(e);
            },
        };
        let v1 = match x1.to_value() {
            Ok(v) => v,
            Err(e) => {
                return Err(e);
            },
        };
        let v2 = match x2.to_value() {
            Ok(v) => v,
            Err(e) => {
                return Err(e);
            },
        };
        let v3 = match x3.to_value() {
            Ok(v) => v,
            Err(e) => {
                return Err(e);
            },
        };
        let v4 = match x4.to_value() {
            Ok(v) => v,
            Err(e) => {
                return Err(e);
            },
        };
        let v5 = match x5.to_value() {
            Ok(v) => v,
            Err(e) => {
                return Err(e);
            },
        };
        let v6 = match x6.to_value() {
            Ok(v) => v,
            Err(e) => {
                return Err(e);
            },
        };
        let v7 = match x7.to_value() {
            Ok(v) => v,
            Err(e) => {
                return Err(e);
            },
        };
        let v8 = match x8.to_value() {
            Ok(v) => v,
            Err(e) => {
                return Err(e);
            },
        };
        let v9 = match x9.to_value() {
            Ok(v) => v,
            Err(e) => {
                return Err(e);
            },
        };
        let v10 = match x10.to_value() {
            Ok(v) => v,
            Err(e) => {
                return Err(e);
            },
        };
        let v11 = match x11.to_value() {
            Ok(v) => v,
            Err(e) => {
                return Err(e);
            },
        };
        let mut out: Vec<Value> = Vec::new();
        out.push(v0);
        out.push(v1);
        out.push(v2);
        out.push(v3);
        out.push(v4);
        out.push(v5);
        out.push(v6);
        out.push(v7);
        out.push(v8);
        out.push(v9);
        out.push(v10);
        out.push(v11);
        Ok(out)
    }

    fn count() -> (n: usize) {
        12
    }
}

impl<A: ToValue, B: ToValue, C: ToValue, D: ToValue, E: ToValue, F: ToValue, G: ToValue, H: ToValue, I: ToValue, J: ToValue, K: ToValue, L: ToValue, M: ToValue> Args for (A, B, C, D, E, F, G, H, I, J, K, L, M) {
    open spec fn args_of(self, vs: Seq<Value>) -> bool {
        vs.len() == 13 && self.0.value_of(vs[0]) && self.1.value_of(vs[1]) && self.2.value_of(vs[2]) && self.3.value_of(vs[3]) && self.4.value_of(vs[4]) && self.5.value_of(vs[5]) && self.6.value_of(vs[6]) && self.7.value_of(vs[7]) && self.8.value_of(vs[8]) && self.9.value_of(vs[9]) && self.10.value_of(vs[10]) && self.11.value_of(vs[11]) && self.12.value_of(vs[12])
    }

    open spec fn spec_count() -> nat {
        13
    }

    fn into_stack(self, stack: &mut Stack) -> (r: Result<(), VmError>) {
        let (x0, x1, x2, x3, x4, x5, x6, x7, x8, x9, x10, x11, x12) = self;
        let v0 = match x0.to_value() {
            Ok(v) => v,
            Err(e) => {
                return Err(e);
            },
        };
        let v1 = match x1.to_value() {
            Ok(v) => v,
            Err(e) => {
                return Err(e);
            },
        };
        let v2 = match x2.to_value() {
            Ok(v) => v,
            Err(e) => {
                return Err(e);
            },
        };
        let v3 = match x3.to_value() {
            Ok(v) => v,
            Err(e) => {
                return Err(e);
            },
        };
        let v4 = match x4.to_value() {
            Ok(v) => v,
            Err(e) => {
                return Err(e);
            },
        };
        let v5 = match x5.to_value() {
            Ok(v) => v,
            Err(e) => {
                return Err(e);
            },
        };
        let v6 = match x6.to_value() {
            Ok(v) => v,
            Err(e) => {
                return Err(e);
            },
        };
        let v7 = match x7.to_value() {
            Ok(v) => v,
            Err(e) => {
                return Err(e);
            },
        };
        let v8 = match x8.to_value() {
            Ok(v) => v,
            Err(e) => {
                return Err(e);
            },
        };
        let v9 = match x9.to_value() {
            Ok(v) => v,
            Err(e) => {
                return Err(e);
            },
        };
        let v10 = match x10.to_value() {
            Ok(v) => v,
            Err(e) => {
                return Err(e);
            },
        };
        let v11 = match x11.to_value() {
            Ok(v) => v,
            Err(e) => {
                return Err(e);
            },
        };
        let v12 = match x12.to_value() {
            Ok(v) => v,
            Err(e) => {
                return Err(e);
            },
        };
        let ghost base = stack.items();
        stack.push(v0);
        stack.push(v1);
        stack.push(v2);
        stack.push(v3);
        stack.push(v4);
        stack.push(v5);
        stack.push(v6);
        stack.push(v7);
        stack.push(v8);
        stack.push(v9);
        stack.push(v10);
        stack.push(v11);
        stack.push(v12);
        proof {
            assert(stack.items().take(base.len() as int) =~= base);
            assert(stack.items().skip(base.len() as int) =~= seq![v0, v1, v2, v3, v4, v5, v6, v7, v8, v9, v10, v11, v12]);
        }
        Ok(())
    }

    fn into_vec(self) -> (r: Result<Vec<Value>, VmError>) {
        let (x0, x1, x2, x3, x4, x5, x6, x7, x8, x9, x10, x11, x12) = self;
        let v0 = match x0.to_value() {
            Ok(v) => v,
            Err(e) => {
                return Err(e);
            },
        };
        let v1 = match x1.to_value() {
            Ok(v) => v,
            Err(e) => {
                return Err(e);
            },
        };
        let v2 = match x2.to_value() {
            Ok(v) => v,
            Err(e) => {
                return Err(e);
            },
        };
        let v3 = match x3.to_value() {
            Ok(v) => v,
            Err(e) => {
                return Err(e);
            },
        };
        let v4 = match x4.to_value() {
            Ok(v) => v,
            Err(e) => {
                return Err(e);
            },
        };
        let v5 = match x5.to_value() {
            Ok(v) => v,
            Err(e) => {
                return Err(e);
            },
        };
        let v6 = match x6.to_value() {
            Ok(v) => v,
            Err(e) => {
                return Err(e);
            },
        };
        let v7 = match x7.to_value() {
            Ok(v) => v,
            Err(e) => {
                return Err(e);
            },
        };
        let v8 = match x8.to_value() {
            Ok(v) => v,
            Err(e) => {
                return Err(e);
            },
        };
        let v9 = match x9.to_value() {
            Ok(v) => v,
            Err(e) => {
                return Err(e);
            },
        };
        let v10 = match x10.to_value() {
            Ok(v) => v,
            Err(e) => {
                return Err(e);
            },
        };
        let v11 = match x11.to_value() {
            Ok(v) => v,
            Err(e) => {
                return Err(e);
            },
        };
        let v12 = match x12.to_value() {
            Ok(v) => v,
            Err(e) => {
                return Err(e);
            },
        };
        let mut out: Vec<Value> = Vec::new();
        out.push(v0);
        out.push(v1);
        out.push(v2);
        out.push(v3);
        out.push(v4);
        out.push(v5);
        out.push(v6);
        out.push(v7);
        out.push(v8);
        out.push(v9);
        out.push(v10);
        out.push(v11);
        out.push(v12);
        Ok(out)
    }

    fn count() -> (n: usize) {
        13
    }
}

impl<A: ToValue, B: ToValue, C: ToValue, D: ToValue, E: ToValue, F: ToValue, G: ToValue, H: ToValue, I: ToValue, J: ToValue, K: ToValue, L: ToValue, M: ToValue, N: ToValue> Args for (A, B, C, D, E, F, G, H, I, J, K, L, M, N) {
    open spec fn args_of(self, vs: Seq<Value>) -> bool {
        vs.len() == 14 && self.0.value_of(vs[0]) && self.1.value_of(vs[1]) && self.2.value_of(vs[2]) && self.3.value_of(vs[3]) && self.4.value_of(vs[4]) && self.5.value_of(vs[5]) && self.6.value_of(vs[6]) && self.7.value_of(vs[7]) && self.8.value_of(vs[8]) && self.9.value_of(vs[9]) && self.10.value_of(vs[10]) && self.11.value_of(vs[11]) && self.12.value_of(vs[12]) && self.13.value_of(vs[13])
    }

    open spec fn spec_count() -> nat {
        14
    }

    fn into_stack(self, stack: &mut Stack) -> (r: Result<(), VmError>) {
        let (x0, x1, x2, x3, x4, x5, x6, x7, x8, x9, x10, x11, x12, x13) = self;
        let v0 = match x0.to_value() {
            Ok(v) => v,
            Err(e) => {
                return Err(e);
            },
        };
        let v1 = match x1.to_value() {
            Ok(v) => v,
            Err(e) => {
                return Err(e);
            },
        };
        let v2 = match x2.to_value() {
            Ok(v) => v,
            Err(e) => {
                return Err(e);
            },
        };
        let v3 = match x3.to_value() {
            Ok(v) => v,
            Err(e) => {
                return Err(e);
            },
        };
        let v4 = match x4.to_value() {
            Ok(v) => v,
            Err(e) => {
                return Err(e);
            },
        };
        let v5 = match x5.to_value() {
            Ok(v) => v,
            Err(e) => {
                return Err(e);
            },
        };
        let v6 = match x6.to_value() {
            Ok(v) => v,
            Err(e) => {
                return Err(e);
            },
        };
        let v7 = match x7.to_value() {
            Ok(v) => v,
            Err(e) => {
                return Err(e);
            },
        };
        let v8 = match x8.to_value() {
            Ok(v) => v,
            Err(e) => {
                return Err(e);
            },
        };
        let v9 = match x9.to_value() {
            Ok(v) => v,
            Err(e) => {
                return Err(e);
            },
        };
        let v10 = match x10.to_value() {
            Ok(v) => v,
            Err(e) => {
                return Err(e);
            },
        };
        let v11 = match x11.to_value() {
            Ok(v) => v,
            Err(e) => {
                return Err(e);
            },
        };
        let v12 = match x12.to_value() {
            Ok(v) => v,
            Err(e) => {
                return Err(e);
            },
        };
        let v13 = match x13.to_value() {
            Ok(v) => v,
            Err(e) => {
                return Err(e);
            },
        };
        let ghost base = stack.items();
        stack.push(v0);
        stack.push(v1);
        stack.push(v2);
        stack.push(v3);
        stack.push(v4);
        stack.push(v5);
        stack.push(v6);
        stack.push(v7);
        stack.push(v8);
        stack.push(v9);
        stack.push(v10);
        stack.push(v11);
        stack.push(v12);
        stack.push(v13);
        proof {
            assert(stack.items().take(base.len() as int) =~= base);
            assert(stack.items().skip(base.len() as int) =~= seq![v0, v1, v2, v3, v4, v5, v6, v7, v8, v9, v10, v11, v12, v13]);
        }
        Ok(())
    }

    fn into_vec(self) -> (r: Result<Vec<Value>, VmError>) {
        let (x0, x1, x2, x3, x4, x5, x6, x7, x8, x9, x10, x11, x12, x13) = self;
        let v0 = match x0.to_value() {
            Ok(v) => v,
            Err(e) => {
                return Err(e);
            },
        };
        let v1 = match x1.to_value() {
            Ok(v) => v,
            Err(e) => {
                return Err(e);
            },
        };
        let v2 = match x2.to_value() {
            Ok(v) => v,
            Err(e) => {
                return Err(e);
            },
        };
        let v3 = match x3.to_value() {
            Ok(v) => v,
            Err(e) => {
                return Err(e);
            },
        };
        let v4 = match x4.to_value() {
            Ok(v) => v,
            Err(e) => {
                return Err(e);
            },
        };
        let v5 = match x5.to_value() {
            Ok(v) => v,
            Err(e) => {
                return Err(e);
            },
        };
        let v6 = match x6.to_value() {
            Ok(v) => v,
            Err(e) => {
                return Err(e);
            },
        };
        let v7 = match x7.to_value() {
            Ok(v) => v,
            Err(e) => {
                return Err(e);
            },
        };
        let v8 = match x8.to_value() {
            Ok(v) => v,
            Err(e) => {
                return Err(e);
            },
        };
        let v9 = match x9.to_value() {
            Ok(v) => v,
            Err(e) => {
                return Err(e);
            },
        };
        let v10 = match x10.to_value() {
            Ok(v) => v,
            Err(e) => {
                return Err(e);
            },
        };
        let v11 = match x11.to_value() {
            Ok(v) => v,
            Err(e) => {
                return Err(e);
            },
        };
        let v12 = match x12.to_value() {
            Ok(v) => v,
            Err(e) => {
                return Err(e);
            },
        };
        let v13 = match x13.to_value() {
            Ok(v) => v,
            Err(e) => {
                return Err(e);
            },
        };
        let mut out: Vec<Value> = Vec::new();
        out.push(v0);
        out.push(v1);
        out.push(v2);
        out.push(v3);
        out.push(v4);
        out.push(v5);
        out.push(v6);
        out.push(v7);
        out.push(v8);
        out.push(v9);
        out.push(v10);
        out.push(v11);
        out.push(v12);
        out.push(v13);
        Ok(out)
    }

    fn count() -> (n: usize) {
        14
    }
}

impl<A: ToValue, B: ToValue, C: ToValue, D: ToValue, E: ToValue, F: ToValue, G: ToValue, H: ToValue, I: ToValue, J: ToValue, K: ToValue, L: ToValue, M: ToValue, N: ToValue, O: ToValue> Args for (A, B, C, D, E, F, G, H, I, J, K, L, M, N, O) {
    open spec fn args_of(self, vs: Seq<Value>) -> bool {
        vs.len() == 15 && self.0.value_of(vs[0]) && self.1.value_of(vs[1]) && self.2.value_of(vs[2]) && self.3.value_of(vs[3]) && self.4.value_of(vs[4]) && self.5.value_of(vs[5]) && self.6.value_of(vs[6]) && self.7.value_of(vs[7]) && self.8.value_of(vs[8]) && self.9.value_of(vs[9]) && self.10.value_of(vs[10]) && self.11.value_of(vs[11]) && self.12.value_of(vs[12]) && self.13.value_of(vs[13]) && self.14.value_of(vs[14])
    }

    open spec fn spec_count() -> nat {
        15
    }

    fn into_stack(self, stack: &mut Stack) -> (r: Result<(), VmError>) {
        let (x0, x1, x2, x3, x4, x5, x6, x7, x8, x9, x10, x11, x12, x13, x14) = self;
        let v0 = match x0.to_value() {
            Ok(v) => v,
            Err(e) => {
                return Err(e);
            },
        };
        let v1 = match x1.to_value() {
            Ok(v) => v,
            Err(e) => {
                return Err(e);
            },
        };
        let v2 = match x2.to_value() {
            Ok(v) => v,
            Err(e) => {
                return Err(e);
            },
        };
        let v3 = match x3.to_value() {
            Ok(v) => v,
            Err(e) => {
                return Err(e);
            },
        };
        let v4 = match x4.to_value() {
            Ok(v) => v,
            Err(e) => {
                return Err(e);
            },
        };
        let v5 = match x5.to_value() {
            Ok(v) => v,
            Err(e) => {
                return Err(e);
            },
        };
        let v6 = match x6.to_value() {
            Ok(v) => v,
            Err(e) => {
                return Err(e);
            },
        };
        let v7 = match x7.to_value() {
            Ok(v) => v,
            Err(e) => {
                return Err(e);
            },
        };
        let v8 = match x8.to_value() {
            Ok(v) => v,
            Err(e) => {
                return Err(e);
            },
        };
        let v9 = match x9.to_value() {
            Ok(v) => v,
            Err(e) => {
                return Err(e);
            },
        };
        let v10 = match x10.to_value() {
            Ok(v) => v,
            Err(e) => {
                return Err(e);
            },
        };
        let v11 = match x11.to_value() {
            Ok(v) => v,
            Err(e) => {
                return Err(e);
            },
        };
        let v12 = match x12.to_value() {
            Ok(v) => v,
            Err(e) => {
                return Err(e);
            },
        };
        let v13 = match x13.to_value() {
            Ok(v) => v,
            Err(e) => {
                return Err(e);
            },
        };
        let v14 = match x14.to_value() {
            Ok(v) => v,
            Err(e) => {
                return Err(e);
            },
        };
        let ghost base = stack.items();
        stack.push(v0);
        stack.push(v1);
        stack.push(v2);
        stack.push(v3);
        stack.push(v4);
        stack.push(v5);
        stack.push(v6);
        stack.push(v7);
        stack.push(v8);
        stack.push(v9);
        stack.push(v10);
        stack.push(v11);
        stack.push(v12);
        stack.push(v13);
        stack.push(v14);
        proof {
            assert(stack.items().take(base.len() as int) =~= base);
            assert(stack.items().skip(base.len() as int) =~= seq![v0, v1, v2, v3, v4, v5, v6, v7, v8, v9, v10, v11, v12, v13, v14]);
        }
        Ok(())
    }

    fn into_vec(self) -> (r: Result<Vec<Value>, VmError>) {
        let (x0, x1, x2, x3, x4, x5, x6, x7, x8, x9, x10, x11, x12, x13, x14) = self;
        let v0 = match x0.to_value() {
            Ok(v) => v,
            Err(e) => {
                return Err(e);
            },
        };
        let v1 = match x1.to_value() {
            Ok(v) => v,
            Err(e) => {
                return Err(e);
            },
        };
        let v2 = match x2.to_value() {
            Ok(v) => v,
            Err(e) => {
                return Err(e);
            },
        };
        let v3 = match x3.to_value() {
            Ok(v) => v,
            Err(e) => {
                return Err(e);
            },
        };
        let v4 = match x4.to_value() {
            Ok(v) => v,
            Err(e) => {
                return Err(e);
            },
        };
        let v5 = match x5.to_value() {
            Ok(v) => v,
            Err(e) => {
                return Err(e);
            },
        };
        let v6 = match x6.to_value() {
            Ok(v) => v,
            Err(e) => {
                return Err(e);
            },
        };
        let v7 = match x7.to_value() {
            Ok(v) => v,
            Err(e) => {
                return Err(e);
            },
        };
        let v8 = match x8.to_value() {
            Ok(v) => v,
            Err(e) => {
                return Err(e);
            },
        };
        let v9 = match x9.to_value() {
            Ok(v) => v,
            Err(e) => {
                return Err(e);
            },
        };
        let v10 = match x10.to_value() {
            Ok(v) => v,
            Err(e) => {
                return Err(e);
            },
        };
        let v11 = match x11.to_value() {
            Ok(v) => v,
            Err(e) => {
                return Err(e);
            },
        };
        let v12 = match x12.to_value() {
            Ok(v) => v,
            Err(e) => {
                return Err(e);
            },
        };
        let v13 = match x13.to_value() {
            Ok(v) => v,
            Err(e) => {
                return Err(e);
            },
        };
        let v14 = match x14.to_value() {
            Ok(v) => v,
            Err(e) => {
                return Err(e);
            },
        };
        let mut out: Vec<Value> = Vec::new();
        out.push(v0);
        out.push(v1);
        out.push(v2);
        out.push(v3);
        out.push(v4);
        out.push(v5);
        out.push(v6);
        out.push(v7);
        out.push(v8);
        out.push(v9);
        out.push(v10);
        out.push(v11);
        out.push(v12);
        out.push(v13);
        out.push(v14);
        Ok(out)
    }

    fn count() -> (n: usize) {
        15
    }
}

impl<A: ToValue, B: ToValue, C: ToValue, D: ToValue, E: ToValue, F: ToValue, G: ToValue, H: ToValue, I: ToValue, J: ToValue, K: ToValue, L: ToValue, M: ToValue, N: ToValue, O: ToValue, P: ToValue> Args for (A, B, C, D, E, F, G, H, I, J, K, L, M, N, O, P) {
    open spec fn args_of(self, vs: Seq<Value>) -> bool {
        vs.len() == 16 && self.0.value_of(vs[0]) && self.1.value_of(vs[1]) && self.2.value_of(vs[2]) && self.3.value_of(vs[3]) && self.4.value_of(vs[4]) && self.5.value_of(vs[5]) && self.6.value_of(vs[6]) && self.7.value_of(vs[7]) && self.8.value_of(vs[8]) && self.9.value_of(vs[9]) && self.10.value_of(vs[10]) && self.11.value_of(vs[11]) && self.12.value_of(vs[12]) && self.13.value_of(vs[13]) && self.14.value_of(vs[14]) && self.15.value_of(vs[15])
    }

    open spec fn spec_count() -> nat {
        16
    }

    fn into_stack(self, stack: &mut Stack) -> (r: Result<(), VmError>) {
        let (x0, x1, x2, x3, x4, x5, x6, x7, x8, x9, x10, x11, x12, x13, x14, x15) = self;
        let v0 = match x0.to_value() {
            Ok(v) => v,
            Err(e) => {
                return Err(e);
            },
        };
        let v1 = match x1.to_value() {
            Ok(v) => v,
            Err(e) => {
                return Err(e);
            },
        };
        let v2 = match x2.to_value() {
            Ok(v) => v,
            Err(e) => {
                return Err(e);
            },
        };
        let v3 = match x3.to_value() {
            Ok(v) => v,
            Err(e) => {
                return Err(e);
            },
        };
        let v4 = match x4.to_value() {
            Ok(v) => v,
            Err(e) => {
                return Err(e);
            },
        };
        let v5 = match x5.to_value() {
            Ok(v) => v,
            Err(e) => {
                return Err(e);
            },
        };
        let v6 = match x6.to_value() {
            Ok(v) => v,
            Err(e) => {
                return Err(e);
            },
        };
        let v7 = match x7.to_value() {
            Ok(v) => v,
            Err(e) => {
                return Err(e);
            },
        };
        let v8 = match x8.to_value() {
            Ok(v) => v,
            Err(e) => {
                return Err(e);
            },
        };
        let v9 = match x9.to_value() {
            Ok(v) => v,
            Err(e) => {
                return Err(e);
            },
        };
        let v10 = match x10.to_value() {
            Ok(v) => v,
            Err(e) => {
                return Err(e);
            },
        };
        let v11 = match x11.to_value() {
            Ok(v) => v,
            Err(e) => {
                return Err(e);
            },
        };
        let v12 = match x12.to_value() {
            Ok(v) => v,
            Err(e) => {
                return Err(e);
            },
        };
        let v13 = match x13.to_value() {
            Ok(v) => v,
            Err(e) => {
                return Err(e);
            },
        };
        let v14 = match x14.to_value() {
            Ok(v) => v,
            Err(e) => {
                return Err(e);
            },
        };
        let v15 = match x15.to_value() {
            Ok(v) => v,
            Err(e) => {
                return Err(e);
            },
        };
        let ghost base = stack.items();
        stack.push(v0);
        stack.push(v1);
        stack.push(v2);
        stack.push(v3);
        stack.push(v4);
        stack.push(v5);
        stack.push(v6);
        stack.push(v7);
        stack.push(v8);
        stack.push(v9);
        stack.push(v10);
        stack.push(v11);
        stack.push(v12);
        stack.push(v13);
        stack.push(v14);
        stack.push(v15);
        proof {
            assert(stack.items().take(base.len() as int) =~= base);
            assert(stack.items().skip(base.len() as int) =~= seq![v0, v1, v2, v3, v4, v5, v6, v7, v8, v9, v10, v11, v12, v13, v14, v15]);
        }
        Ok(())
    }

    fn into_vec(self) -> (r: Result<Vec<Value>, VmError>) {
        let (x0, x1, x2, x3, x4, x5, x6, x7, x8, x9, x10, x11, x12, x13, x14, x15) = self;
        let v0 = match x0.to_value() {
            Ok(v) => v,
            Err(e) => {
                return Err(e);
            },
        };
        let v1 = match x1.to_value() {
            Ok(v) => v,
            Err(e) => {
                return Err(e);
            },
        };
        let v2 = match x2.to_value() {
            Ok(v) => v,
            Err(e) => {
                return Err(e);
            },
        };
        let v3 = match x3.to_value() {
            Ok(v) => v,
            Err(e) => {
                return Err(e);
            },
        };
        let v4 = match x4.to_value() {
            Ok(v) => v,
            Err(e) => {
                return Err(e);
            },
        };
        let v5 = match x5.to_value() {
            Ok(v) => v,
            Err(e) => {
                return Err(e);
            },
        };
        let v6 = match x6.to_value() {
            Ok(v) => v,
            Err(e) => {
                return Err(e);
            },
        };
        let v7 = match x7.to_value() {
            Ok(v) => v,
            Err(e) => {
                return Err(e);
            },
        };
        let v8 = match x8.to_value() {
            Ok(v) => v,
            Err(e) => {
                return Err(e);
            },
        };
        let v9 = match x9.to_value() {
            Ok(v) => v,
            Err(e) => {
                return Err(e);
            },
        };
        let v10 = match x10.to_value() {
            Ok(v) => v,
            Err(e) => {
                return Err(e);
            },
        };
        let v11 = match x11.to_value() {
            Ok(v) => v,
            Err(e) => {
                return Err(e);
            },
        };
        let v12 = match x12.to_value() {
            Ok(v) => v,
            Err(e) => {
                return Err(e);
            },
        };
        let v13 = match x13.to_value() {
            Ok(v) => v,
            Err(e) => {
                return Err(e);
            },
        };
        let v14 = match x14.to_value() {
            Ok(v) => v,
            Err(e) => {
                return Err(e);
            },
        };
        let v15 = match x15.to_value() {
            Ok(v) => v,
            Err(e) => {
                return Err(e);
            },
        };
        let mut out: Vec<Value> = Vec::new();
        out.push(v0);
        out.push(v1);
        out.push(v2);
        out.push(v3);
        out.push(v4);
        out.push(v5);
        out.push(v6);
        out.push(v7);
        out.push(v8);
        out.push(v9);
        out.push(v10);
        out.push(v11);
        out.push(v12);
        out.push(v13);
        out.push(v14);
        out.push(v15);
        Ok(out)
    }

    fn count() -> (n: usize) {
        16
    }
}

} // verus!
