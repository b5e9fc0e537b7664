//! The shallow encode planner and the outbound frame layout.
//!
//! Encoding does not recurse: every value type is assumed to expose a
//! self-contained value-to-bytes capability elsewhere, and this layer
//! only branches on presence for optional fields and frames the byte
//! form for the outbound statement. Absence is an explicit not-set
//! marker, distinct from a zero-length and from a null byte form.

use crate::kind::{classify, classify_spec, LeafKind};
use crate::schema::{resolve, FieldDef, SchemaError, TypeExpr};
use crate::plan::SchemaFault;
use vstd::prelude::*;

verus! {

/// How one declared field is turned into outbound bytes.
#[derive(Clone, Copy, Debug, PartialEq, Eq, Structural)]
pub enum EncodePlan {
    /// Serialize the field's byte form directly.
    DirectBytes,
    /// Branch on presence: a present inner value's byte form, or the
    /// explicit not-set marker.
    OptionalBranch,
}

/// The relation between a field's type expression and its encode plan:
/// optionals branch on presence, every other named shape is direct, and
/// a shape that is not named-with-generics is refused.
pub open spec fn encode_plans_to(t: TypeExpr, res: Result<EncodePlan, SchemaError>) -> bool {
    match t {
        TypeExpr::Named { ident, .. } => if classify_spec(ident@) == LeafKind::Opt {
            res == Ok::<EncodePlan, SchemaError>(EncodePlan::OptionalBranch)
        } else {
            res == Ok::<EncodePlan, SchemaError>(EncodePlan::DirectBytes)
        },
        _ => res == Err::<EncodePlan, SchemaError>(SchemaError::TypeResolution),
    }
}

/// Derives the encode plan for one field's type expression.
pub fn plan_encode(t: &TypeExpr) -> (res: Result<EncodePlan, SchemaError>)
    ensures
        encode_plans_to(*t, res),
{
    let (ident, _args) = match resolve(t) {
        Ok(p) => p,
        Err(e) => {
            return Err(e);
        },
    };
    if classify(ident.as_str()) == LeafKind::Opt {
        Ok(EncodePlan::OptionalBranch)
    } else {
        Ok(EncodePlan::DirectBytes)
    }
}

/// Plans a whole record's encode, one plan per field in schema order;
/// the first refused field aborts planning and is named in the fault.
pub fn plan_record_encode(schema: &Vec<FieldDef>) -> (res: Result<Vec<EncodePlan>, SchemaFault>)
    ensures
        match res {
            Ok(plans) => {
                &&& plans@.len() == schema@.len()
                &&& forall|i: int|
                    0 <= i < schema@.len() ==> encode_plans_to(
                        schema@[i].ty,
                        Ok((#[trigger] plans@[i])),
                    )
            },
            Err(f) => exists|i: int|
                0 <= i < schema@.len() && f.field@ == (#[trigger] schema@[i]).name@
                    && encode_plans_to(schema@[i].ty, Err(f.error)),
        },
{
    let mut plans: Vec<EncodePlan> = Vec::new();
    let mut i: usize = 0;
    while i < schema.len()
        invariant
            i <= schema@.len(),
            plans@.len() == i,
            forall|j: int|
                0 <= j < i ==> encode_plans_to(schema@[j].ty, Ok((#[trigger] plans@[j]))),
        decreases schema@.len() - i,
    {
        match plan_encode(&schema[i].ty) {
            Ok(p) => plans.push(p),
            Err(e) => {
                let fault = SchemaFault { field: schema[i].name.clone(), error: e };
                proof {
                    assert(encode_plans_to(schema@[i as int].ty, Err(fault.error)));
                }
                return Err(fault);
            },
        }
        i += 1;
    }
    Ok(plans)
}

/// The four big-endian bytes of a 32-bit length prefix.
pub open spec fn be32(n: u32) -> Seq<u8> {
    seq![
        ((n / 0x1000000) % 256) as u8,
        ((n / 0x10000) % 256) as u8,
        ((n / 0x100) % 256) as u8,
        (n % 256) as u8,
    ]
}

/// A present value's outbound frame: its byte count as a 32-bit
/// big-endian prefix, then the bytes themselves.
pub open spec fn framed_normal(bytes: Seq<u8>) -> Seq<u8> {
    be32(bytes.len() as u32) + bytes
}

/// The explicit not-set marker: the 32-bit big-endian form of -2,
/// distinct from a zero-length frame and from the null marker -1.
pub open spec fn not_set_marker() -> Seq<u8> {
    seq![255u8, 255u8, 255u8, 254u8]
}

/// What one field's encode yields, given the plan and the field's
/// possibly absent external byte form.
pub open spec fn encode_field_spec(plan: EncodePlan, value: Option<Seq<u8>>) -> Seq<u8> {
    match plan {
        EncodePlan::DirectBytes => framed_normal(value->0),
        EncodePlan::OptionalBranch => match value {
            Some(b) => framed_normal(b),
            None => not_set_marker(),
        },
    }
}

/// The view of a field's possibly absent byte form.
pub open spec fn opt_view(value: Option<Vec<u8>>) -> Option<Seq<u8>> {
    match value {
        Some(b) => Some(b@),
        None => None,
    }
}

/// Frames a present byte form: length prefix, then the bytes.
pub fn frame_normal(bytes: &Vec<u8>) -> (r: Vec<u8>)
    requires
        bytes@.len() <= 0x7fffffff,
    ensures
        r@ == framed_normal(bytes@),
{
    let n: u32 = bytes.len() as u32;
    let mut r: Vec<u8> = Vec::new();
    r.push(((n / 0x1000000) % 256) as u8);
    r.push(((n / 0x10000) % 256) as u8);
    r.push(((n / 0x100) % 256) as u8);
    r.push((n % 256) as u8);
    let mut i: usize = 0;
    while i < bytes.len()
        invariant
            i <= bytes@.len(),
            r@ == be32(bytes@.len() as u32) + bytes@.subrange(0, i as int),
        decreases bytes@.len() - i,
    {
        r.push(bytes[i]);
        proof {
            assert(bytes@.subrange(0, i + 1 as int) =~= bytes@.subrange(0, i as int).push(
                bytes@[i as int],
            ));
            assert(r@ =~= be32(bytes@.len() as u32) + bytes@.subrange(0, i + 1 as int));
        }
        i += 1;
    }
    proof {
        assert(bytes@.subrange(0, bytes@.len() as int) =~= bytes@);
        assert(r@ =~= framed_normal(bytes@));
    }
    r
}

/// The explicit not-set marker as bytes.
pub fn not_set_bytes() -> (r: Vec<u8>)
    ensures
        r@ == not_set_marker(),
{
    let mut r: Vec<u8> = Vec::new();
    r.push(255);
    r.push(255);
    r.push(255);
    r.push(254);
    proof {
        assert(r@ =~= not_set_marker());
    }
    r
}

/// Encodes one field: a present byte form is framed, an absent optional
/// yields the not-set marker. A field planned `DirectBytes` is never
/// absent.
pub fn encode_field(plan: &EncodePlan, value: &Option<Vec<u8>>) -> (r: Vec<u8>)
    requires
        *plan is DirectBytes ==> *value is Some,
        *value matches Some(b) ==> b@.len() <= 0x7fffffff,
    ensures
        r@ == encode_field_spec(*plan, opt_view(*value)),
{
    match value {
        Some(b) => frame_normal(b),
        None => not_set_bytes(),
    }
}

/// The concatenated outbound byte form of a record's first `i` fields.
pub open spec fn encode_record_spec(
    plans: Seq<EncodePlan>,
    values: Seq<Option<Seq<u8>>>,
    i: int,
) -> Seq<u8>
    decreases i,
{
    if i <= 0 {
        Seq::empty()
    } else {
        encode_record_spec(plans, values, i - 1) + encode_field_spec(plans[i - 1], values[i - 1])
    }
}

/// The views of all fields' possibly absent byte forms.
pub open spec fn opt_views(values: Seq<Option<Vec<u8>>>) -> Seq<Option<Seq<u8>>> {
    Seq::new(values.len(), |i: int| opt_view(values[i]))
}

/// Encodes a whole record: every field's frame, in schema order, in one
/// byte buffer.
pub fn encode_record(plans: &Vec<EncodePlan>, values: &Vec<Option<Vec<u8>>>) -> (r: Vec<u8>)
    requires
        plans@.len() == values@.len(),
        forall|i: int|
            0 <= i < plans@.len() ==> ((#[trigger] plans@[i]) is DirectBytes ==> values@[i]
                is Some),
        forall|i: int|
            0 <= i < values@.len() ==> ((#[trigger] values@[i]) matches Some(b) ==> b@.len()
                <= 0x7fffffff),
    ensures
        r@ == encode_record_spec(plans@, opt_views(values@), plans@.len() as int),
{
    let mut r: Vec<u8> = Vec::new();
    let mut i: usize = 0;
    while i < plans.len()
        invariant
            i <= plans@.len(),
            plans@.len() == values@.len(),
            forall|j: int|
                0 <= j < plans@.len() ==> ((#[trigger] plans@[j]) is DirectBytes ==> values@[j]
                    is Some),
            forall|j: int|
                0 <= j < values@.len() ==> ((#[trigger] values@[j]) matches Some(b) ==> b@.len()
                    <= 0x7fffffff),
            r@ == encode_record_spec(plans@, opt_views(values@), i as int),
        decreases plans@.len() - i,
    {
        let mut piece: Vec<u8> = encode_field(&plans[i], &values[i]);
        r.append(&mut piece);
        proof {
            assert(opt_views(values@)[i as int] == opt_view(values@[i as int]));
            assert(r@ =~= encode_record_spec(plans@, opt_views(values@), i + 1 as int));
        }
        i += 1;
    }
    r
}

} // verus!
