//! Algebraic-data-type instances: a variant carries runtime type info and an
//! empty, tuple or struct payload.

use crate::error::VmError;
use crate::protocol::ProtocolCaller;
use crate::value::spec_prim_cmp;
use crate::value::spec_prim_pair;
use crate::value::spec_value_eq;
use crate::value::spec_values_eq;
use crate::value::spec_values_readable;
use crate::value::Value;
use core::cmp::Ordering;
use vstd::prelude::*;

verus! {

/// Runtime type info for one variant of an enum.
///
/// Two variants are the same variant exactly when their `hash` matches, and
/// they are comparable exactly when their `enum_hash` matches.
#[derive(Debug)]
pub struct VariantRtti {
    /// The qualified path of the variant.
    pub item: String,
    /// The identity hash of the variant itself.
    pub hash: crate::hash::Hash,
    /// The identity hash of the enclosing enum.
    pub enum_hash: crate::hash::Hash,
    /// The names of the variant's fields, in declaration order; empty for
    /// unit and tuple variants.
    pub fields: Vec<String>,
}

/// The data of a variant.
#[derive(Debug)]
pub enum VariantData {
    /// A unit variant.
    Empty,
    /// A struct variant, with one value per declared field, in field order.
    Struct(Vec<Value>),
    /// A tuple variant, with its values in positional order.
    Tuple(Vec<Value>),
}

/// The variant of a type: runtime type info plus payload data.
#[derive(Debug)]
pub struct Variant {
    /// The runtime type info of the variant.
    pub rtti: VariantRtti,
    /// The payload data of the variant.
    pub data: VariantData,
}

/// A field accessor over a variant's declared field names and a slice of
/// field data, used by the host to read struct-variant fields by name.
pub struct Accessor<'a> {
    /// The declared field names, in order.
    pub fields: &'a Vec<String>,
    /// The field data, one value per declared name.
    pub data: &'a [Value],
}

impl<'a> Accessor<'a> {
    /// The value of the field with the given name, where one is declared
    /// and every declared name has data.
    pub fn field(&self, name: &String) -> (r: Option<&'a Value>)
        ensures
            r matches Some(v) ==> exists|i: int|
                0 <= i < self.fields@.len() && i < self.data@.len() && (
                #[trigger] self.fields@[i])@ == name@ && *v == self.data@[i],
            self.fields@.len() <= self.data@.len() && r is None ==> forall|i: int|
                0 <= i < self.fields@.len() ==> (#[trigger] self.fields@[i])@ != name@,
    {
        let n = self.fields.len();
        let mut i: usize = 0;
        while i < n
            invariant
                n == self.fields@.len(),
                i <= n,
                forall|j: int| 0 <= j < i ==> (#[trigger] self.fields@[j])@ != name@,
            decreases n - i,
        {
            let candidate: &String = &self.fields[i];
            if *candidate == *name {
                if i < self.data.len() {
                    return Some(vstd::slice::slice_index_get(self.data, i));
                } else {
                    return None;
                }
            }
            i += 1;
        }
        None
    }
}

/// Whether two payloads have the same shape. Two variants that share a hash
/// but differ in shape indicate corrupted runtime type info, which the
/// comparisons report as a VM panic.
pub open spec fn spec_same_shape(a: VariantData, b: VariantData) -> bool {
    match (a, b) {
        (VariantData::Empty, VariantData::Empty) => true,
        (VariantData::Tuple(_), VariantData::Tuple(_)) => true,
        (VariantData::Struct(_), VariantData::Struct(_)) => true,
        _ => false,
    }
}

/// The payload of a variant as a sequence of values.
pub open spec fn spec_payload_seq(d: VariantData) -> Seq<Value> {
    match d {
        VariantData::Empty => Seq::<Value>::empty(),
        VariantData::Tuple(x) => x@,
        VariantData::Struct(x) => x@,
    }
}

/// Whether a variant's payload is free of top-level host objects, so that
/// comparing it never consults the protocol caller.
pub open spec fn spec_variant_protocol_free(v: Variant) -> bool {
    crate::value::spec_values_protocol_free(spec_payload_seq(v.data))
}

/// Whether two payload sequences pair up as natively ordered primitives, so
/// that ordering them never consults the protocol caller.
pub open spec fn spec_prim_pairs(a: Seq<Value>, b: Seq<Value>) -> bool {
    forall|i: int|
        0 <= i < a.len() && i < b.len() ==> spec_prim_pair(#[trigger] a[i], #[trigger] b[i])
}

/// The lexicographic ordering of two payload sequences under the native
/// primitive ordering: the first unequal pair decides; a proper prefix
/// orders before the longer sequence; a pair with no native order yields
/// no order.
pub open spec fn spec_prims_lex_cmp(a: Seq<Value>, b: Seq<Value>) -> Option<Ordering>
    decreases a.len(),
{
    if a.len() == 0 && b.len() == 0 {
        Some(Ordering::Equal)
    } else if a.len() == 0 {
        Some(Ordering::Less)
    } else if b.len() == 0 {
        Some(Ordering::Greater)
    } else {
        match spec_prim_cmp(a.first(), b.first()) {
            Some(Ordering::Equal) => spec_prims_lex_cmp(a.drop_first(), b.drop_first()),
            o => o,
        }
    }
}

proof fn lemma_lex_step(a: Seq<Value>, b: Seq<Value>, i: int)
    requires
        0 <= i < a.len(),
        i < b.len(),
        spec_prim_cmp(a[i], b[i]) == Some(Ordering::Equal),
    ensures
        spec_prims_lex_cmp(a.skip(i), b.skip(i)) == spec_prims_lex_cmp(a.skip(i + 1), b.skip(i + 1)),
{
    assert(a.skip(i).first() == a[i]);
    assert(b.skip(i).first() == b[i]);
    assert(a.skip(i).drop_first() =~= a.skip(i + 1));
    assert(b.skip(i).drop_first() =~= b.skip(i + 1));
}

/// For two variants of the same enum, the structural equality that
/// [`Variant::partial_eq_with`] decides holds exactly when the variant
/// identity hashes match and the payloads are structurally equal, shape
/// included.
pub proof fn lemma_variant_eq_characterization(a: Variant, b: Variant)
    requires
        a.rtti.enum_hash == b.rtti.enum_hash,
    ensures
        crate::value::spec_variant_eq(a, b) <==> (a.rtti.hash == b.rtti.hash && spec_same_shape(
            a.data,
            b.data,
        ) && spec_values_eq(spec_payload_seq(a.data), spec_payload_seq(b.data))),
{
    match (a.data, b.data) {
        (VariantData::Empty, VariantData::Empty) => {
            assert(spec_values_eq(Seq::<Value>::empty(), Seq::<Value>::empty()));
        },
        _ => {},
    }
}

proof fn lemma_lex_some(a: Seq<Value>, b: Seq<Value>)
    requires
        spec_prim_pairs(a, b),
    ensures
        spec_prims_lex_cmp(a, b) is Some,
    decreases a.len(),
{
    if a.len() == 0 || b.len() == 0 {
    } else {
        assert(spec_prim_pair(a[0], b[0]));
        if spec_prim_cmp(a.first(), b.first()) == Some(Ordering::Equal) {
            assert forall|i: int|
                0 <= i < a.drop_first().len() && i < b.drop_first().len() implies spec_prim_pair(
                #[trigger] a.drop_first()[i],
                #[trigger] b.drop_first()[i],
            ) by {
                assert(a.drop_first()[i] == a[i + 1]);
                assert(b.drop_first()[i] == b[i + 1]);
            }
            lemma_lex_some(a.drop_first(), b.drop_first());
        }
    }
}

proof fn lemma_lex_found(a: Seq<Value>, b: Seq<Value>, i: int)
    requires
        0 <= i < a.len(),
        i < b.len(),
        spec_prim_cmp(a[i], b[i]) != Some(Ordering::Equal),
    ensures
        spec_prims_lex_cmp(a.skip(i), b.skip(i)) == spec_prim_cmp(a[i], b[i]),
{
    assert(a.skip(i).first() == a[i]);
    assert(b.skip(i).first() == b[i]);
}

/// Element-wise payload equality under the protocol indirection; `total`
/// selects the total-equality protocol for the host-object cases.
fn values_eq_with<C: ProtocolCaller>(x: &Vec<Value>, y: &Vec<Value>, total: bool, caller: &mut C) -> (r:
    Result<bool, VmError>)
    ensures
        crate::value::spec_values_protocol_free(x@) && crate::value::spec_values_protocol_free(y@)
            ==> {
            &&& (r matches Ok(eq) ==> eq == spec_values_eq(x@, y@))
            &&& (spec_values_readable(x@) && spec_values_readable(y@) ==> r matches Ok(_))
            &&& (r matches Err(e) ==> e matches VmError::Borrow(crate::error::BorrowError))
        },
{
    if x.len() != y.len() {
        return Ok(false);
    }
    let n = x.len();
    let mut i: usize = 0;
    while i < n
        invariant
            n == x.len() == y.len(),
            i <= n,
            crate::value::spec_values_protocol_free(x@) && crate::value::spec_values_protocol_free(
                y@,
            ) ==> forall|j: int| 0 <= j < i ==> spec_value_eq(#[trigger] x@[j], y@[j]),
        decreases n - i,
    {
        let e = if total {
            Value::eq_with(&x[i], &y[i], caller)
        } else {
            Value::partial_eq_with(&x[i], &y[i], caller)
        };
        match e {
            Ok(true) => {},
            Ok(false) => {
                return Ok(false);
            },
            Err(e) => {
                return Err(e);
            },
        }
        i += 1;
    }
    Ok(true)
}

/// Element-wise payload ordering under the protocol indirection; `total`
/// selects the total-ordering protocol. The result is the lexicographic
/// order, with a missing element ordering before a present one.
fn values_cmp_with<C: ProtocolCaller>(x: &Vec<Value>, y: &Vec<Value>, total: bool, caller: &mut C) -> (r:
    Result<Option<Ordering>, VmError>)
    ensures
        spec_prim_pairs(x@, y@) ==> r == Ok::<Option<Ordering>, VmError>(
            spec_prims_lex_cmp(x@, y@),
        ),
{
    let n = if x.len() < y.len() {
        x.len()
    } else {
        y.len()
    };
    proof {
        assert(x@.skip(0) =~= x@);
        assert(y@.skip(0) =~= y@);
    }
    let mut i: usize = 0;
    while i < n
        invariant
            n == if x@.len() < y@.len() {
                x@.len()
            } else {
                y@.len()
            },
            i <= n,
            spec_prim_pairs(x@, y@) ==> spec_prims_lex_cmp(x@, y@) == spec_prims_lex_cmp(
                x@.skip(i as int),
                y@.skip(i as int),
            ),
        decreases n - i,
    {
        let e = if total {
            match Value::cmp_with(&x[i], &y[i], caller) {
                Ok(o) => Ok(Some(o)),
                Err(e) => Err(e),
            }
        } else {
            Value::partial_cmp_with(&x[i], &y[i], caller)
        };
        match e {
            Ok(Some(Ordering::Equal)) => {
                proof {
                    if spec_prim_pairs(x@, y@) {
                        lemma_lex_step(x@, y@, i as int);
                    }
                }
            },
            Ok(o) => {
                proof {
                    if spec_prim_pairs(x@, y@) {
                        lemma_lex_found(x@, y@, i as int);
                    }
                }
                return Ok(o);
            },
            Err(e) => {
                return Err(e);
            },
        }
        i += 1;
    }
    proof {
        if x@.len() == y@.len() {
            assert(x@.skip(n as int) =~= Seq::<Value>::empty());
            assert(y@.skip(n as int) =~= Seq::<Value>::empty());
        } else if x@.len() < y@.len() {
            assert(x@.skip(n as int) =~= Seq::<Value>::empty());
            assert(y@.skip(n as int).len() > 0);
        } else {
            assert(y@.skip(n as int) =~= Seq::<Value>::empty());
            assert(x@.skip(n as int).len() > 0);
        }
    }
    if x.len() == y.len() {
        Ok(Some(Ordering::Equal))
    } else if x.len() < y.len() {
        Ok(Some(Ordering::Less))
    } else {
        Ok(Some(Ordering::Greater))
    }
}

impl Variant {
    /// Well-formedness: the payload shape matches the declared field names —
    /// a unit or tuple variant declares none, a struct variant has one value
    /// per declared field.
    pub open spec fn wf(self) -> bool {
        match self.data {
            VariantData::Empty => self.rtti.fields@.len() == 0,
            VariantData::Tuple(v) => self.rtti.fields@.len() == 0,
            VariantData::Struct(v) => v@.len() == self.rtti.fields@.len(),
        }
    }

    /// Construct a unit variant.
    pub fn unit(rtti: VariantRtti) -> (r: Variant)
        requires
            rtti.fields@.len() == 0,
        ensures
            r == (Variant { rtti, data: VariantData::Empty }),
            r.wf(),
    {
        Variant { rtti, data: VariantData::Empty }
    }

    /// Construct a tuple variant.
    pub fn tuple(rtti: VariantRtti, tuple: Vec<Value>) -> (r: Variant)
        requires
            rtti.fields@.len() == 0,
        ensures
            r.rtti == rtti,
            r.data matches VariantData::Tuple(v) && v@ == tuple@,
            r.wf(),
    {
        Variant { rtti, data: VariantData::Tuple(tuple) }
    }

    /// Construct a struct variant.
    pub fn struct_(rtti: VariantRtti, data: Vec<Value>) -> (r: Variant)
        requires
            data@.len() == rtti.fields@.len(),
        ensures
            r.rtti == rtti,
            r.data matches VariantData::Struct(v) && v@ == data@,
            r.wf(),
    {
        Variant { rtti, data: VariantData::Struct(data) }
    }

    /// Construct a field accessor from this variant over the given data.
    pub fn accessor<'a>(&'a self, data: &'a [Value]) -> (r: Accessor<'a>)
        ensures
            r.fields == &self.rtti.fields,
            r.data == data,
    {
        Accessor { fields: &self.rtti.fields, data }
    }

    /// Try to access the variant data as a tuple.
    pub fn as_tuple(&self) -> (r: Option<&Vec<Value>>)
        ensures
            match r {
                Some(v) => self.data matches VariantData::Tuple(t) && v@ == t@,
                None => !(self.data matches VariantData::Tuple(_)),
            },
    {
        match &self.data {
            VariantData::Tuple(tuple) => Some(tuple),
            _ => None,
        }
    }

    /// Access the runtime type info of the variant.
    pub fn rtti(&self) -> (r: &VariantRtti)
        ensures
            *r == self.rtti,
    {
        &self.rtti
    }

    /// Access the underlying variant data.
    pub fn data(&self) -> (r: &VariantData)
        ensures
            *r == self.data,
    {
        &self.data
    }

    /// Access the underlying variant data mutably.
    pub fn data_mut(&mut self) -> (r: &mut VariantData)
        ensures
            *r == old(self).data,
            final(self).rtti == old(self).rtti,
            final(self).data == *final(r),
    {
        &mut self.data
    }

    /// Partial equality of two variants of the same enum: unequal variant
    /// hashes compare unequal; equal hashes compare the payloads
    /// element-wise, consulting the protocol caller for host objects; a
    /// payload-shape mismatch under equal hashes is corrupted runtime type
    /// info and unwinds as a VM panic.
    ///
    /// Callers must ensure the variants come from the same enum.
    pub fn partial_eq_with<C: ProtocolCaller>(a: &Variant, b: &Variant, caller: &mut C) -> (r:
        Result<bool, VmError>)
        requires
            a.rtti.enum_hash == b.rtti.enum_hash,
        ensures
            a.rtti.hash != b.rtti.hash ==> r == Ok::<bool, VmError>(false),
            a.rtti.hash == b.rtti.hash && !spec_same_shape(a.data, b.data) ==> (r matches Err(e)
                && e matches VmError::Panic(m) && m@ == "data mismatch between variants"@),
            spec_variant_protocol_free(*a) && spec_variant_protocol_free(*b) ==> {
                &&& (r matches Ok(eq) ==> eq == crate::value::spec_variant_eq(*a, *b))
                &&& (crate::value::spec_variant_readable(*a) && crate::value::spec_variant_readable(
                    *b,
                ) && spec_same_shape(a.data, b.data) ==> r matches Ok(_))
                &&& (spec_same_shape(a.data, b.data) ==> (r matches Err(e2) ==> e2
                    matches VmError::Borrow(crate::error::BorrowError)))
            },
    {
        Self::eq_with_inner(a, b, false, caller)
    }

    /// Total equality of two variants of the same enum; the same comparison
    /// as [`Variant::partial_eq_with`], under the total-equality protocol.
    pub fn eq_with<C: ProtocolCaller>(a: &Variant, b: &Variant, caller: &mut C) -> (r: Result<
        bool,
        VmError,
    >)
        requires
            a.rtti.enum_hash == b.rtti.enum_hash,
        ensures
            a.rtti.hash != b.rtti.hash ==> r == Ok::<bool, VmError>(false),
            a.rtti.hash == b.rtti.hash && !spec_same_shape(a.data, b.data) ==> (r matches Err(e)
                && e matches VmError::Panic(m) && m@ == "data mismatch between variants"@),
            spec_variant_protocol_free(*a) && spec_variant_protocol_free(*b) ==> {
                &&& (r matches Ok(eq) ==> eq == crate::value::spec_variant_eq(*a, *b))
                &&& (crate::value::spec_variant_readable(*a) && crate::value::spec_variant_readable(
                    *b,
                ) && spec_same_shape(a.data, b.data) ==> r matches Ok(_))
                &&& (spec_same_shape(a.data, b.data) ==> (r matches Err(e2) ==> e2
                    matches VmError::Borrow(crate::error::BorrowError)))
            },
    {
        Self::eq_with_inner(a, b, true, caller)
    }

    /// The shared body of the two equality comparisons.
    fn eq_with_inner<C: ProtocolCaller>(a: &Variant, b: &Variant, total: bool, caller: &mut C) -> (r:
        Result<bool, VmError>)
        requires
            a.rtti.enum_hash == b.rtti.enum_hash,
        ensures
            a.rtti.hash != b.rtti.hash ==> r == Ok::<bool, VmError>(false),
            a.rtti.hash == b.rtti.hash && !spec_same_shape(a.data, b.data) ==> (r matches Err(e)
                && e matches VmError::Panic(m) && m@ == "data mismatch between variants"@),
            spec_variant_protocol_free(*a) && spec_variant_protocol_free(*b) ==> {
                &&& (r matches Ok(eq) ==> eq == crate::value::spec_variant_eq(*a, *b))
                &&& (crate::value::spec_variant_readable(*a) && crate::value::spec_variant_readable(
                    *b,
                ) && spec_same_shape(a.data, b.data) ==> r matches Ok(_))
                &&& (spec_same_shape(a.data, b.data) ==> (r matches Err(e2) ==> e2
                    matches VmError::Borrow(crate::error::BorrowError)))
            },
    {
        if a.rtti.hash.0 != b.rtti.hash.0 {
            return Ok(false);
        }
        match (&a.data, &b.data) {
            (VariantData::Empty, VariantData::Empty) => Ok(true),
            (VariantData::Tuple(x), VariantData::Tuple(y)) => values_eq_with(x, y, total, caller),
            (VariantData::Struct(x), VariantData::Struct(y)) => values_eq_with(x, y, total, caller),
            _ => Err(VmError::Panic("data mismatch between variants".to_owned())),
        }
    }

    /// Partial ordering of two variants of the same enum: unequal variant
    /// hashes order by hash; equal hashes order the payloads positionally,
    /// natively for primitives and through the protocol caller otherwise; a
    /// payload-shape mismatch under equal hashes unwinds as a VM panic.
    ///
    /// Callers must ensure the variants come from the same enum.
    pub fn partial_cmp_with<C: ProtocolCaller>(a: &Variant, b: &Variant, caller: &mut C) -> (r:
        Result<Option<Ordering>, VmError>)
        requires
            a.rtti.enum_hash == b.rtti.enum_hash,
        ensures
            a.rtti.hash.0 < b.rtti.hash.0 ==> r == Ok::<Option<Ordering>, VmError>(
                Some(Ordering::Less),
            ),
            a.rtti.hash.0 > b.rtti.hash.0 ==> r == Ok::<Option<Ordering>, VmError>(
                Some(Ordering::Greater),
            ),
            a.rtti.hash == b.rtti.hash && !spec_same_shape(a.data, b.data) ==> (r matches Err(e)
                && e matches VmError::Panic(m) && m@ == "data mismatch between variants"@),
            a.rtti.hash == b.rtti.hash && spec_same_shape(a.data, b.data) && spec_prim_pairs(
                spec_payload_seq(a.data),
                spec_payload_seq(b.data),
            ) ==> r == Ok::<Option<Ordering>, VmError>(
                spec_prims_lex_cmp(spec_payload_seq(a.data), spec_payload_seq(b.data)),
            ),
    {
        if a.rtti.hash.0 < b.rtti.hash.0 {
            return Ok(Some(Ordering::Less));
        }
        if a.rtti.hash.0 > b.rtti.hash.0 {
            return Ok(Some(Ordering::Greater));
        }
        match (&a.data, &b.data) {
            (VariantData::Empty, VariantData::Empty) => Ok(Some(Ordering::Equal)),
            (VariantData::Tuple(x), VariantData::Tuple(y)) => values_cmp_with(x, y, false, caller),
            (VariantData::Struct(x), VariantData::Struct(y)) => values_cmp_with(
                x,
                y,
                false,
                caller,
            ),
            _ => Err(VmError::Panic("data mismatch between variants".to_owned())),
        }
    }

    /// Total ordering of two variants of the same enum; ordered like
    /// [`Variant::partial_cmp_with`], under the total-ordering protocol.
    ///
    /// Callers must ensure the variants come from the same enum.
    pub fn cmp_with<C: ProtocolCaller>(a: &Variant, b: &Variant, caller: &mut C) -> (r: Result<
        Ordering,
        VmError,
    >)
        requires
            a.rtti.enum_hash == b.rtti.enum_hash,
        ensures
            a.rtti.hash.0 < b.rtti.hash.0 ==> r == Ok::<Ordering, VmError>(Ordering::Less),
            a.rtti.hash.0 > b.rtti.hash.0 ==> r == Ok::<Ordering, VmError>(Ordering::Greater),
            a.rtti.hash == b.rtti.hash && !spec_same_shape(a.data, b.data) ==> (r matches Err(e)
                && e matches VmError::Panic(m) && m@ == "data mismatch between variants"@),
            a.rtti.hash == b.rtti.hash && spec_same_shape(a.data, b.data) && spec_prim_pairs(
                spec_payload_seq(a.data),
                spec_payload_seq(b.data),
            ) ==> (r matches Ok(o) && Some(o) == spec_prims_lex_cmp(
                spec_payload_seq(a.data),
                spec_payload_seq(b.data),
            )),
    {
        if a.rtti.hash.0 < b.rtti.hash.0 {
            return Ok(Ordering::Less);
        }
        if a.rtti.hash.0 > b.rtti.hash.0 {
            return Ok(Ordering::Greater);
        }
        let inner = match (&a.data, &b.data) {
            (VariantData::Empty, VariantData::Empty) => {
                return Ok(Ordering::Equal);
            },
            (VariantData::Tuple(x), VariantData::Tuple(y)) => values_cmp_with(x, y, true, caller),
            (VariantData::Struct(x), VariantData::Struct(y)) => values_cmp_with(x, y, true, caller),
            _ => {
                return Err(VmError::Panic("data mismatch between variants".to_owned()));
            },
        };
        proof {
            if a.rtti.hash == b.rtti.hash && spec_same_shape(a.data, b.data) && spec_prim_pairs(
                spec_payload_seq(a.data),
                spec_payload_seq(b.data),
            ) {
                lemma_lex_some(spec_payload_seq(a.data), spec_payload_seq(b.data));
            }
        }
        match inner {
            Ok(Some(o)) => Ok(o),
            Ok(None) => Err(VmError::Panic("missing protocol".to_owned())),
            Err(e) => Err(e),
        }
    }
}

} // verus!
