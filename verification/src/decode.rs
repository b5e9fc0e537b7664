//! Running a decode plan against a raw value.
//!
//! A raw value models what the accessor hands over: an explicit absence
//! signal, a scalar leaf, a raw sequence, a raw entry set, or a named
//! composite. The evaluator walks the plan and the raw value together and
//! produces the decoded value or a typed failure; the relation
//! [`decodes`] pins every successful outcome down exactly and ties every
//! failure to data that genuinely produces it, and the evaluator is
//! proved against it.

use crate::kind::LeafKind;
use crate::plan::{lookup_record, lookup_spec, DecodePlan, RecordPlan, Registry};
use crate::text::str_eq;
use vstd::prelude::*;

verus! {

/// A raw scalar leaf: its kind, and one machine word standing for
/// whatever payload the external leaf codec carries. The planners never
/// look inside a payload; for the sentinel scalar kinds the word is the
/// integer itself, so zero is the excluded value.
#[derive(Clone, Copy, Debug, PartialEq, Eq, Structural)]
pub struct Leaf {
    /// The leaf's kind.
    pub kind: LeafKind,
    /// The payload word.
    pub data: i64,
}

/// A raw value as the accessor hands it over.
pub enum RawValue {
    /// The explicit absence signal.
    Absent,
    /// A scalar leaf.
    Scalar(Leaf),
    /// A raw sequence of elements.
    Items(Vec<RawValue>),
    /// A raw entry set: leaf keys with raw values.
    Entries(Vec<(Leaf, RawValue)>),
    /// A named composite: the raw form of a nested record, fields under
    /// their names.
    Composite(Vec<(String, RawValue)>),
}

/// A decoded value.
pub enum Value {
    /// A scalar leaf, taken unchanged from the raw value.
    Scalar(Leaf),
    /// A decoded sequence, order preserved.
    List(Vec<Value>),
    /// A decoded mapping: keys verbatim, values decoded.
    Dict(Vec<(Leaf, Value)>),
    /// The empty state of an optional.
    Nothing,
    /// The present state of an optional.
    Present(Box<Value>),
    /// A decoded record, fields in plan order under their names.
    Record(Vec<(String, Value)>),
}

/// A data-level failure at decode time. One record's failure is a value;
/// it aborts nothing around it.
#[derive(Clone, Copy, Debug, PartialEq, Eq, Structural)]
pub enum DecodeError {
    /// Required data was absent where presence was mandatory.
    MissingValue,
    /// A sequence or mapping column was required but absent.
    EmptyContainer,
    /// The raw value did not fit the planned shape: the underlying
    /// codec's failure, surfaced unchanged.
    CodecFailed,
    /// A field fell to the nested-record default at planning time, but
    /// no record of that name is registered.
    UnknownRecord,
}

/// What a plan yields on the explicit absence signal. No plan recurses on
/// absent data: optionals produce their empty state, scalars and records
/// miss their value, containers are empty.
pub open spec fn absent_result(plan: DecodePlan) -> Result<Value, DecodeError> {
    match plan {
        DecodePlan::LeafConvert(_) => Err(DecodeError::MissingValue),
        DecodePlan::SequenceOf(_) => Err(DecodeError::EmptyContainer),
        DecodePlan::MapOf(_, _) => Err(DecodeError::EmptyContainer),
        DecodePlan::OptionalSentinel(_) => Ok(Value::Nothing),
        DecodePlan::OptionalOf(_) => Ok(Value::Nothing),
        DecodePlan::RecordOf(_) => Err(DecodeError::MissingValue),
    }
}

/// The relation between a plan, a raw value and a decode outcome.
///
/// Successful outcomes are pinned exactly: the decoded value is
/// determined element by element. A failing outcome carries an error
/// that an element of the raw input genuinely produces, surfaced
/// unchanged; which of several failing positions reports is the
/// evaluator's own order of work, not part of the contract.
pub open spec fn decodes(
    reg: Registry,
    plan: DecodePlan,
    raw: RawValue,
    res: Result<Value, DecodeError>,
) -> bool
    decreases raw, plan,
{
    match plan {
        DecodePlan::LeafConvert(k) => match raw {
            RawValue::Absent => res == absent_result(plan),
            RawValue::Scalar(l) => if l.kind == k {
                res == Ok::<Value, DecodeError>(Value::Scalar(l))
            } else {
                res == Err::<Value, DecodeError>(DecodeError::CodecFailed)
            },
            _ => res == Err::<Value, DecodeError>(DecodeError::CodecFailed),
        },
        DecodePlan::OptionalSentinel(k) => match raw {
            RawValue::Absent => res == absent_result(plan),
            RawValue::Scalar(l) => if l.kind == k && l.data != 0 {
                res == Ok::<Value, DecodeError>(Value::Scalar(l))
            } else {
                res == Err::<Value, DecodeError>(DecodeError::CodecFailed)
            },
            _ => res == Err::<Value, DecodeError>(DecodeError::CodecFailed),
        },
        DecodePlan::SequenceOf(inner) => match raw {
            RawValue::Absent => res == absent_result(plan),
            RawValue::Items(elems) => match res {
                Ok(Value::List(out)) => out@.len() == elems@.len() && (forall|i: int|
                    0 <= i < elems@.len() ==> decodes(
                        reg,
                        *inner,
                        #[trigger] elems@[i],
                        Ok(out@[i]),
                    )),
                Ok(_) => false,
                Err(_) => exists|i: int|
                    0 <= i < elems@.len() && decodes(reg, *inner, #[trigger] elems@[i], res),
            },
            _ => res == Err::<Value, DecodeError>(DecodeError::CodecFailed),
        },
        DecodePlan::MapOf(k, inner) => match raw {
            RawValue::Absent => res == absent_result(plan),
            RawValue::Entries(entries) => match res {
                Ok(Value::Dict(out)) => out@.len() == entries@.len() && (forall|i: int|
                    0 <= i < entries@.len() ==> {
                        &&& (#[trigger] entries@[i]).0.kind == k
                        &&& out@[i].0 == entries@[i].0
                        &&& decodes(reg, *inner, entries@[i].1, Ok(out@[i].1))
                    }),
                Ok(_) => false,
                Err(_) => exists|i: int|
                    0 <= i < entries@.len() && if (#[trigger] entries@[i]).0.kind != k {
                        res == Err::<Value, DecodeError>(DecodeError::CodecFailed)
                    } else {
                        decodes(reg, *inner, entries@[i].1, res)
                    },
            },
            _ => res == Err::<Value, DecodeError>(DecodeError::CodecFailed),
        },
        DecodePlan::OptionalOf(inner) => match raw {
            RawValue::Absent => res == absent_result(plan),
            _ => match res {
                Ok(Value::Present(v)) => decodes(reg, *inner, raw, Ok(*v)),
                Ok(_) => false,
                Err(_) => decodes(reg, *inner, raw, res),
            },
        },
        DecodePlan::RecordOf(name) => match lookup_spec(reg.records@, name@) {
            Option::None => res == Err::<Value, DecodeError>(DecodeError::UnknownRecord),
            Option::Some(rp) => match raw {
                RawValue::Absent => res == Err::<Value, DecodeError>(DecodeError::MissingValue),
                RawValue::Composite(pairs) => match res {
                    Ok(Value::Record(out)) => out@.len() == rp.fields@.len() && (forall|i: int|
                        0 <= i < rp.fields@.len() ==> {
                            &&& (#[trigger] out@[i]).0@ == rp.fields@[i].0@
                            &&& field_decodes(
                                reg,
                                rp.fields@[i].1,
                                pairs@,
                                rp.fields@[i].0@,
                                Ok(out@[i].1),
                            )
                        }),
                    Ok(_) => false,
                    Err(_) => exists|i: int|
                        0 <= i < rp.fields@.len() && field_decodes(
                            reg,
                            (#[trigger] rp.fields@[i]).1,
                            pairs@,
                            rp.fields@[i].0@,
                            res,
                        ),
                },
                _ => res == Err::<Value, DecodeError>(DecodeError::CodecFailed),
            },
        },
    }
}

/// One record field's decode against a raw composite: the field's plan
/// runs on the first raw pair carrying the field's name, or yields the
/// plan's absent outcome when no pair does.
pub open spec fn field_decodes(
    reg: Registry,
    fplan: DecodePlan,
    pairs: Seq<(String, RawValue)>,
    fname: Seq<char>,
    res: Result<Value, DecodeError>,
) -> bool
    decreases pairs, fplan,
{
    if exists|j: int| 0 <= j < pairs.len() && (#[trigger] pairs[j]).0@ == fname {
        exists|j: int|
            {
                &&& 0 <= j < pairs.len()
                &&& (#[trigger] pairs[j]).0@ == fname
                &&& forall|j2: int| 0 <= j2 < j ==> (#[trigger] pairs[j2]).0@ != fname
                &&& decodes(reg, fplan, pairs[j].1, res)
            }
    } else {
        res == absent_result(fplan)
    }
}

/// A record plan's failure on one field is the record's failure: the
/// step from a failing field to the whole composite's decode outcome.
proof fn lemma_record_field_err(
    reg: Registry,
    name: String,
    rp: RecordPlan,
    pairs: Vec<(String, RawValue)>,
    e: DecodeError,
)
    requires
        lookup_spec(reg.records@, name@) == Some(rp),
        exists|i: int|
            0 <= i < rp.fields@.len() && field_decodes(
                reg,
                (#[trigger] rp.fields@[i]).1,
                pairs@,
                rp.fields@[i].0@,
                Err(e),
            ),
    ensures
        decodes(reg, DecodePlan::RecordOf(name), RawValue::Composite(pairs), Err(e)),
{
    let i = choose|i: int|
        0 <= i < rp.fields@.len() && field_decodes(
            reg,
            (#[trigger] rp.fields@[i]).1,
            pairs@,
            rp.fields@[i].0@,
            Err(e),
        );
    assert(0 <= i < rp.fields@.len());
    assert(field_decodes(
        reg,
        (lookup_spec(reg.records@, name@)->Some_0).fields@[i].1,
        pairs@,
        (lookup_spec(reg.records@, name@)->Some_0).fields@[i].0@,
        Err(e),
    ));
}

/// Yields what a plan produces on the explicit absence signal.
pub fn absent_case(plan: &DecodePlan) -> (res: Result<Value, DecodeError>)
    ensures
        res == absent_result(*plan),
{
    match plan {
        DecodePlan::LeafConvert(_) => Err(DecodeError::MissingValue),
        DecodePlan::SequenceOf(_) => Err(DecodeError::EmptyContainer),
        DecodePlan::MapOf(_, _) => Err(DecodeError::EmptyContainer),
        DecodePlan::OptionalSentinel(_) => Ok(Value::Nothing),
        DecodePlan::OptionalOf(_) => Ok(Value::Nothing),
        DecodePlan::RecordOf(_) => Err(DecodeError::MissingValue),
    }
}

/// Finds the first raw pair carrying `name`: its position, or `None` when
/// no pair does.
pub fn find_pair(pairs: &Vec<(String, RawValue)>, name: &str) -> (r: Option<usize>)
    ensures
        match r {
            Some(j) => {
                &&& j < pairs@.len()
                &&& pairs@[j as int].0@ == name@
                &&& forall|j2: int| 0 <= j2 < j ==> (#[trigger] pairs@[j2]).0@ != name@
            },
            None => forall|j2: int| 0 <= j2 < pairs@.len() ==> (#[trigger] pairs@[j2]).0@ != name@,
        },
{
    let mut i: usize = 0;
    while i < pairs.len()
        invariant
            i <= pairs@.len(),
            forall|j2: int| 0 <= j2 < i ==> (#[trigger] pairs@[j2]).0@ != name@,
        decreases pairs@.len() - i,
    {
        if str_eq(pairs[i].0.as_str(), name) {
            return Some(i);
        }
        i += 1;
    }
    None
}

/// Runs a decode plan against a raw value: the decoded value, or the
/// first typed failure. The outcome is exactly the one [`decodes`]
/// relates to the plan and the raw value.
#[verifier::loop_isolation(false)]
#[verifier::rlimit(50)]
pub fn run_decode(reg: &Registry, plan: &DecodePlan, raw: &RawValue) -> (res: Result<
    Value,
    DecodeError,
>)
    ensures
        decodes(*reg, *plan, *raw, res),
    decreases *raw, *plan,
{
    match plan {
        DecodePlan::LeafConvert(k) => match raw {
            RawValue::Absent => Err(DecodeError::MissingValue),
            RawValue::Scalar(l) => if l.kind == *k {
                Ok(Value::Scalar(*l))
            } else {
                Err(DecodeError::CodecFailed)
            },
            _ => Err(DecodeError::CodecFailed),
        },
        DecodePlan::OptionalSentinel(k) => match raw {
            RawValue::Absent => Ok(Value::Nothing),
            RawValue::Scalar(l) => if l.kind == *k && l.data != 0 {
                Ok(Value::Scalar(*l))
            } else {
                Err(DecodeError::CodecFailed)
            },
            _ => Err(DecodeError::CodecFailed),
        },
        DecodePlan::SequenceOf(inner) => match raw {
            RawValue::Absent => Err(DecodeError::EmptyContainer),
            RawValue::Items(elems) => {
                let mut out: Vec<Value> = Vec::new();
                let mut i: usize = 0;
                while i < elems.len()
                    invariant
                        i <= elems@.len(),
                        out@.len() == i,
                        forall|j: int|
                            0 <= j < i ==> decodes(*reg, **inner, #[trigger] elems@[j], Ok(out@[j])),
                    decreases elems@.len() - i,
                {
                    match run_decode(reg, &**inner, &elems[i]) {
                        Ok(v) => out.push(v),
                        Err(e) => {
                            proof {
                                assert(decodes(*reg, **inner, elems@[i as int], Err(e)));
                            }
                            return Err(e);
                        },
                    }
                    i += 1;
                }
                Ok(Value::List(out))
            },
            _ => Err(DecodeError::CodecFailed),
        },
        DecodePlan::MapOf(k, inner) => match raw {
            RawValue::Absent => Err(DecodeError::EmptyContainer),
            RawValue::Entries(entries) => {
                let mut out: Vec<(Leaf, Value)> = Vec::new();
                let mut i: usize = 0;
                while i < entries.len()
                    invariant
                        i <= entries@.len(),
                        out@.len() == i,
                        forall|j: int|
                            0 <= j < i ==> {
                                &&& (#[trigger] entries@[j]).0.kind == *k
                                &&& out@[j].0 == entries@[j].0
                                &&& decodes(*reg, **inner, entries@[j].1, Ok(out@[j].1))
                            },
                    decreases entries@.len() - i,
                {
                    if entries[i].0.kind != *k {
                        proof {
                            assert(entries@[i as int].0.kind != *k);
                        }
                        return Err(DecodeError::CodecFailed);
                    }
                    match run_decode(reg, &**inner, &entries[i].1) {
                        Ok(v) => out.push((entries[i].0, v)),
                        Err(e) => {
                            proof {
                                assert(entries@[i as int].0.kind == *k);
                                assert(decodes(*reg, **inner, entries@[i as int].1, Err(e)));
                            }
                            return Err(e);
                        },
                    }
                    i += 1;
                }
                Ok(Value::Dict(out))
            },
            _ => Err(DecodeError::CodecFailed),
        },
        DecodePlan::OptionalOf(inner) => match raw {
            RawValue::Absent => Ok(Value::Nothing),
            _ => match run_decode(reg, &**inner, raw) {
                Ok(v) => Ok(Value::Present(Box::new(v))),
                Err(e) => Err(e),
            },
        },
        DecodePlan::RecordOf(name) => match lookup_record(reg, name.as_str()) {
            Option::None => Err(DecodeError::UnknownRecord),
            Option::Some(rp) => match raw {
                RawValue::Absent => Err(DecodeError::MissingValue),
                RawValue::Composite(pairs) => {
                    let mut out: Vec<(String, Value)> = Vec::new();
                    let mut i: usize = 0;
                    while i < rp.fields.len()
                        invariant
                            i <= rp.fields@.len(),
                            out@.len() == i,
                            forall|ii: int|
                                0 <= ii < i ==> {
                                    &&& (#[trigger] out@[ii]).0@ == rp.fields@[ii].0@
                                    &&& field_decodes(
                                        *reg,
                                        rp.fields@[ii].1,
                                        pairs@,
                                        rp.fields@[ii].0@,
                                        Ok(out@[ii].1),
                                    )
                                },
                        decreases rp.fields@.len() - i,
                    {
                        let fres: Result<Value, DecodeError> = match find_pair(
                            pairs,
                            rp.fields[i].0.as_str(),
                        ) {
                            Some(j) => run_decode(reg, &rp.fields[i].1, &pairs[j].1),
                            None => absent_case(&rp.fields[i].1),
                        };
                        proof {
                            assert(field_decodes(
                                *reg,
                                rp.fields@[i as int].1,
                                pairs@,
                                rp.fields@[i as int].0@,
                                fres,
                            ));
                        }
                        match fres {
                            Ok(v) => out.push((rp.fields[i].0.clone(), v)),
                            Err(e) => {
                                proof {
                                    assert(field_decodes(
                                        *reg,
                                        rp.fields@[i as int].1,
                                        pairs@,
                                        rp.fields@[i as int].0@,
                                        Err(e),
                                    ));
                                    assert(exists|ii: int|
                                        0 <= ii < rp.fields@.len() && field_decodes(
                                            *reg,
                                            (#[trigger] rp.fields@[ii]).1,
                                            pairs@,
                                            rp.fields@[ii].0@,
                                            Err(e),
                                        ));
                                    lemma_record_field_err(*reg, *name, *rp, *pairs, e);
                                    assert(*plan == DecodePlan::RecordOf(*name));
                                    assert(*raw == RawValue::Composite(*pairs));
                                }
                                return Err(e);
                            },
                        }
                        i += 1;
                    }
                    Ok(Value::Record(out))
                },
                _ => Err(DecodeError::CodecFailed),
            },
        },
    }
}

/// Decodes a whole declared record by name: the entry point a row or a
/// nested composite value goes through.
pub fn decode_record(reg: &Registry, name: &String, raw: &RawValue) -> (res: Result<
    Value,
    DecodeError,
>)
    ensures
        decodes(*reg, DecodePlan::RecordOf(*name), *raw, res),
{
    let plan = DecodePlan::RecordOf(name.clone());
    run_decode(reg, &plan, raw)
}

} // verus!
