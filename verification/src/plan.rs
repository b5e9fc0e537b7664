//! The recursive decode planner: from a declared type expression to the
//! plan that says how a value of that shape is pulled out of a raw
//! accessor, and from a record's field schema to the record's plan.
//!
//! Planning happens once per declared record type, before any data flows.
//! Schema-shape faults (an unsupported expression shape, a composite with
//! the wrong number of generic arguments) abort planning for the whole
//! record; nothing is deferred to decode time.

use crate::kind::{
    classify, classify_spec, is_scalar, is_sentinel, scalar_kind, sentinel_kind, LeafKind,
};
use crate::schema::{resolve, FieldDef, SchemaError, TypeExpr};
use crate::text::str_eq;
use vstd::prelude::*;

verus! {

/// How a value of one declared shape is obtained from a raw accessor.
pub enum DecodePlan {
    /// A scalar leaf: the raw value is converted directly, no recursion.
    LeafConvert(LeafKind),
    /// A sequence: every raw element is decoded by the inner plan, in
    /// order.
    SequenceOf(Box<DecodePlan>),
    /// A mapping: keys of the given leaf kind are taken verbatim, values
    /// are decoded by the inner plan.
    MapOf(LeafKind, Box<DecodePlan>),
    /// An optional over a zero-excluding scalar: the plan degenerates to
    /// the bare scalar's decode, absence lives inside the scalar codec.
    OptionalSentinel(LeafKind),
    /// An optional in general mode: probe for presence, decode the inner
    /// plan when present.
    OptionalOf(Box<DecodePlan>),
    /// A nested record: decoding delegates to the named record's own
    /// plan.
    RecordOf(String),
}

/// A fault found while processing a record's schema, naming the offending
/// field.
#[derive(Debug)]
pub struct SchemaFault {
    /// The name of the field whose type expression was refused.
    pub field: String,
    /// What was wrong with it.
    pub error: SchemaError,
}

/// The relation between a type expression and the outcome of planning its
/// decode. It is functional in `res`: for every expression exactly one
/// outcome satisfies it.
pub open spec fn plans_to(t: TypeExpr, res: Result<DecodePlan, SchemaError>) -> bool
    decreases t,
{
    match t {
        TypeExpr::Named { ident, args } => {
            let k = classify_spec(ident@);
            if is_scalar(k) {
                res == Ok::<DecodePlan, SchemaError>(DecodePlan::LeafConvert(k))
            } else if k == LeafKind::List {
                if args.len() != 1 {
                    res == Err::<DecodePlan, SchemaError>(SchemaError::Arity)
                } else {
                    match res {
                        Ok(DecodePlan::SequenceOf(inner)) => plans_to(args[0], Ok(*inner)),
                        Ok(_) => false,
                        Err(e) => plans_to(args[0], Err(e)),
                    }
                }
            } else if k == LeafKind::Dict {
                if args.len() != 2 {
                    res == Err::<DecodePlan, SchemaError>(SchemaError::Arity)
                } else {
                    match args[0] {
                        TypeExpr::Named { ident: kident, .. } => {
                            let kk = classify_spec(kident@);
                            match res {
                                Ok(DecodePlan::MapOf(mk, inner)) => mk == kk && plans_to(
                                    args[1],
                                    Ok(*inner),
                                ),
                                Ok(_) => false,
                                Err(e) => plans_to(args[1], Err(e)),
                            }
                        },
                        _ => res == Err::<DecodePlan, SchemaError>(SchemaError::TypeResolution),
                    }
                }
            } else if k == LeafKind::Opt {
                if args.len() != 1 {
                    res == Err::<DecodePlan, SchemaError>(SchemaError::Arity)
                } else {
                    match args[0] {
                        TypeExpr::Named { ident: iident, .. } => {
                            let ik = classify_spec(iident@);
                            if is_sentinel(ik) {
                                res == Ok::<DecodePlan, SchemaError>(
                                    DecodePlan::OptionalSentinel(ik),
                                )
                            } else {
                                match res {
                                    Ok(DecodePlan::OptionalOf(inner)) => plans_to(
                                        args[0],
                                        Ok(*inner),
                                    ),
                                    Ok(_) => false,
                                    Err(e) => plans_to(args[0], Err(e)),
                                }
                            }
                        },
                        _ => res == Err::<DecodePlan, SchemaError>(SchemaError::TypeResolution),
                    }
                }
            } else {
                // A name the table does not know, and a bare sentinel
                // scalar (which has no direct codec of its own), fall to
                // the nested-record default.
                match res {
                    Ok(DecodePlan::RecordOf(n)) => n@ == ident@,
                    _ => false,
                }
            }
        },
        _ => res == Err::<DecodePlan, SchemaError>(SchemaError::TypeResolution),
    }
}

/// Derives the decode plan for one type expression.
///
/// Exactly the expressions `plans_to` admits a plan for get one; every
/// other expression gets the error `plans_to` assigns it: `Arity` for a
/// composite with the wrong number of generic arguments, `TypeResolution`
/// for a shape that is not a simple named-with-generics form.
pub fn plan_decode(t: &TypeExpr) -> (res: Result<DecodePlan, SchemaError>)
    ensures
        plans_to(*t, res),
    decreases *t,
{
    let (ident, args) = match resolve(t) {
        Ok(p) => p,
        Err(e) => {
            return Err(e);
        },
    };
    let k = classify(ident.as_str());
    if scalar_kind(k) {
        Ok(DecodePlan::LeafConvert(k))
    } else if k == LeafKind::List {
        if args.len() != 1 {
            Err(SchemaError::Arity)
        } else {
            match plan_decode(&args[0]) {
                Ok(p) => Ok(DecodePlan::SequenceOf(Box::new(p))),
                Err(e) => Err(e),
            }
        }
    } else if k == LeafKind::Dict {
        if args.len() != 2 {
            Err(SchemaError::Arity)
        } else {
            match &args[0] {
                TypeExpr::Named { ident: kident, .. } => {
                    let kk = classify(kident.as_str());
                    match plan_decode(&args[1]) {
                        Ok(p) => Ok(DecodePlan::MapOf(kk, Box::new(p))),
                        Err(e) => Err(e),
                    }
                },
                _ => Err(SchemaError::TypeResolution),
            }
        }
    } else if k == LeafKind::Opt {
        if args.len() != 1 {
            Err(SchemaError::Arity)
        } else {
            match &args[0] {
                TypeExpr::Named { ident: iident, .. } => {
                    let ik = classify(iident.as_str());
                    if sentinel_kind(ik) {
                        Ok(DecodePlan::OptionalSentinel(ik))
                    } else {
                        match plan_decode(&args[0]) {
                            Ok(p) => Ok(DecodePlan::OptionalOf(Box::new(p))),
                            Err(e) => Err(e),
                        }
                    }
                },
                _ => Err(SchemaError::TypeResolution),
            }
        }
    } else {
        Ok(DecodePlan::RecordOf(ident.clone()))
    }
}

/// A declared record's decode plan: one plan per field, in declaration
/// order, under the field's name.
pub struct RecordPlan {
    /// The fields, each with its name and its decode plan.
    pub fields: Vec<(String, DecodePlan)>,
}

/// The relation between a record's schema and the outcome of planning it:
/// a plan for every field in order, or the first field whose expression
/// was refused, named in the fault.
pub open spec fn record_plans_to(
    schema: Seq<FieldDef>,
    res: Result<RecordPlan, SchemaFault>,
) -> bool {
    match res {
        Ok(rp) => {
            &&& rp.fields@.len() == schema.len()
            &&& forall|i: int|
                0 <= i < schema.len() ==> (#[trigger] rp.fields@[i]).0@ == schema[i].name@
                    && plans_to(schema[i].ty, Ok(rp.fields@[i].1))
        },
        Err(f) => exists|i: int|
            {
                &&& 0 <= i < schema.len()
                &&& f.field@ == (#[trigger] schema[i]).name@
                &&& plans_to(schema[i].ty, Err(f.error))
                &&& forall|j: int|
                    0 <= j < i ==> exists|p: DecodePlan| plans_to((#[trigger] schema[j]).ty, Ok(p))
            },
    }
}

/// Plans a whole record's decode from its field schema.
///
/// Processing is aborted on the first field whose type expression is
/// refused; the fault names that field. There is no partial plan.
pub fn plan_record(schema: &Vec<FieldDef>) -> (res: Result<RecordPlan, SchemaFault>)
    ensures
        record_plans_to(schema@, res),
{
    let mut fields: Vec<(String, DecodePlan)> = Vec::new();
    let mut i: usize = 0;
    while i < schema.len()
        invariant
            i <= schema@.len(),
            fields@.len() == i,
            forall|j: int|
                0 <= j < i ==> (#[trigger] fields@[j]).0@ == schema@[j].name@ && plans_to(
                    schema@[j].ty,
                    Ok(fields@[j].1),
                ),
        decreases schema@.len() - i,
    {
        match plan_decode(&schema[i].ty) {
            Ok(p) => fields.push((schema[i].name.clone(), p)),
            Err(e) => {
                let fault = SchemaFault { field: schema[i].name.clone(), error: e };
                proof {
                    assert(plans_to(schema@[i as int].ty, Err(fault.error)));
                    assert(forall|j: int|
                        0 <= j < i ==> plans_to(
                            (#[trigger] schema@[j]).ty,
                            Ok(fields@[j].1),
                        ));
                    assert(record_plans_to(schema@, Err(fault)));
                }
                return Err(fault);
            },
        }
        i += 1;
    }
    Ok(RecordPlan { fields })
}

/// Every declared record's plan, under the record type's name. Built once
/// at registration time, read-only afterwards; nested-record decoding
/// looks its delegate up here.
pub struct Registry {
    /// The declared records: each name with its record plan.
    pub records: Vec<(String, RecordPlan)>,
}

/// The first plan registered under `name`, searched from position `i`.
pub open spec fn lookup_from(
    records: Seq<(String, RecordPlan)>,
    name: Seq<char>,
    i: int,
) -> Option<RecordPlan>
    decreases records.len() - i,
{
    if i < 0 || i >= records.len() {
        None
    } else if records[i].0@ == name {
        Some(records[i].1)
    } else {
        lookup_from(records, name, i + 1)
    }
}

/// The plan registered under `name`, if any.
pub open spec fn lookup_spec(
    records: Seq<(String, RecordPlan)>,
    name: Seq<char>,
) -> Option<RecordPlan> {
    lookup_from(records, name, 0)
}

/// Finds the plan registered under `name`.
pub fn lookup_record<'a>(reg: &'a Registry, name: &str) -> (r: Option<&'a RecordPlan>)
    ensures
        match r {
            Some(rp) => lookup_spec(reg.records@, name@) == Some(*rp),
            None => lookup_spec(reg.records@, name@) is None,
        },
{
    let mut i: usize = 0;
    while i < reg.records.len()
        invariant
            i <= reg.records@.len(),
            lookup_from(reg.records@, name@, 0) == lookup_from(reg.records@, name@, i as int),
        decreases reg.records@.len() - i,
    {
        if str_eq(reg.records[i].0.as_str(), name) {
            return Some(&reg.records[i].1);
        }
        i += 1;
    }
    None
}

/// Every nested-record delegate a plan names is itself registered.
///
/// The nested-record default is open-world: at planning time any unknown
/// name becomes a record obligation. This predicate is the stricter
/// registration-time check that the obligation can be met, so a
/// misspelled leaf name surfaces here and not at first decode.
pub open spec fn records_declared(plan: DecodePlan, reg: Registry) -> bool
    decreases plan,
{
    match plan {
        DecodePlan::LeafConvert(_) => true,
        DecodePlan::OptionalSentinel(_) => true,
        DecodePlan::SequenceOf(inner) => records_declared(*inner, reg),
        DecodePlan::MapOf(_, inner) => records_declared(*inner, reg),
        DecodePlan::OptionalOf(inner) => records_declared(*inner, reg),
        DecodePlan::RecordOf(name) => lookup_spec(reg.records@, name@) is Some,
    }
}

/// Decides [`records_declared`] on one plan.
pub fn check_records_declared(plan: &DecodePlan, reg: &Registry) -> (r: bool)
    ensures
        r == records_declared(*plan, *reg),
    decreases *plan,
{
    match plan {
        DecodePlan::LeafConvert(_) => true,
        DecodePlan::OptionalSentinel(_) => true,
        DecodePlan::SequenceOf(inner) => check_records_declared(&**inner, reg),
        DecodePlan::MapOf(_, inner) => check_records_declared(&**inner, reg),
        DecodePlan::OptionalOf(inner) => check_records_declared(&**inner, reg),
        DecodePlan::RecordOf(name) => lookup_record(reg, name.as_str()).is_some(),
    }
}

/// Validates a record plan against a registry: true exactly when every
/// field's plan names only registered record delegates.
pub fn validate_record_plan(rp: &RecordPlan, reg: &Registry) -> (r: bool)
    ensures
        r == (forall|i: int|
            0 <= i < rp.fields@.len() ==> records_declared((#[trigger] rp.fields@[i]).1, *reg)),
{
    let mut i: usize = 0;
    while i < rp.fields.len()
        invariant
            i <= rp.fields@.len(),
            forall|j: int|
                0 <= j < i ==> records_declared((#[trigger] rp.fields@[j]).1, *reg),
        decreases rp.fields@.len() - i,
    {
        if !check_records_declared(&rp.fields[i].1, reg) {
            return false;
        }
        i += 1;
    }
    true
}

/// Arity faults are found when the schema is processed, never deferred to
/// decode time: a mapping field declared with other than two generic
/// arguments, or a sequence or optional field with other than one, admits
/// no plan, so planning the whole record ends in an error.
pub proof fn lemma_arity_rejected_at_planning(
    schema: Seq<FieldDef>,
    i: int,
    res: Result<RecordPlan, SchemaFault>,
)
    requires
        0 <= i < schema.len(),
        schema[i].ty matches TypeExpr::Named { ident, args } && ((classify_spec(ident@)
            == LeafKind::Dict && args.len() != 2) || (classify_spec(ident@) == LeafKind::List
            && args.len() != 1) || (classify_spec(ident@) == LeafKind::Opt && args.len() != 1)),
        record_plans_to(schema, res),
    ensures
        res is Err,
{
    if res is Ok {
        assert(plans_to(schema[i].ty, Ok(res->Ok_0.fields@[i].1)));
        assert(false);
    }
}

} // verus!
