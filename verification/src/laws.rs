//! The laws the planners and the evaluator obey, each proved against the
//! relations [`plans_to`] and [`decodes`] that the executable functions
//! are verified against.

use crate::decode::{decodes, field_decodes, DecodeError, Leaf, RawValue, Value};
use crate::kind::{classify_spec, is_sentinel, LeafKind};
use crate::plan::{lookup_spec, plans_to, DecodePlan, RecordPlan, Registry};
use crate::schema::{SchemaError, TypeExpr};
use vstd::prelude::*;

verus! {

/// Decoding a present raw scalar of the planned kind returns it
/// unchanged, for every leaf kind: the conversion is the identity at this
/// layer, and no other outcome satisfies the decode relation.
pub proof fn lemma_leaf_identity(
    reg: Registry,
    k: LeafKind,
    l: Leaf,
    res: Result<Value, DecodeError>,
)
    requires
        l.kind == k,
    ensures
        decodes(reg, DecodePlan::LeafConvert(k), RawValue::Scalar(l), res) <==> res
            == Ok::<Value, DecodeError>(Value::Scalar(l)),
{
}

/// An optional in general mode: absent data yields exactly the empty
/// state, and present data decodes exactly when the inner plan decodes
/// it, wrapped as present.
pub proof fn lemma_optional_general(
    reg: Registry,
    plan: DecodePlan,
    inner: DecodePlan,
    raw: RawValue,
    res: Result<Value, DecodeError>,
)
    requires
        plan matches DecodePlan::OptionalOf(b) && *b == inner,
    ensures
        decodes(reg, plan, RawValue::Absent, res) <==> res == Ok::<Value, DecodeError>(
            Value::Nothing,
        ),
        !(raw matches RawValue::Absent) ==> (decodes(reg, plan, raw, res) <==> (match res {
            Ok(Value::Present(bv)) => decodes(reg, inner, raw, Ok(*bv)),
            Ok(_) => false,
            Err(_) => decodes(reg, inner, raw, res),
        })),
{
}

/// Planning `Optional` over a sentinel scalar picks sentinel mode: the
/// plan degenerates to the bare scalar's decode, with no wrapper layer.
pub proof fn lemma_sentinel_plan(
    ident: String,
    args: Vec<TypeExpr>,
    inner_ident: String,
    inner_args: Vec<TypeExpr>,
    res: Result<DecodePlan, SchemaError>,
)
    requires
        classify_spec(ident@) == LeafKind::Opt,
        args@ =~= seq![TypeExpr::Named { ident: inner_ident, args: inner_args }],
        is_sentinel(classify_spec(inner_ident@)),
        plans_to(TypeExpr::Named { ident, args }, res),
    ensures
        res == Ok::<DecodePlan, SchemaError>(
            DecodePlan::OptionalSentinel(classify_spec(inner_ident@)),
        ),
{
}

/// Decoding in sentinel mode: a present non-zero scalar of the planned
/// kind comes back bare (no wrapper), absence yields the empty state, and
/// the excluded zero is never a valid observed result.
pub proof fn lemma_sentinel_decode(
    reg: Registry,
    k: LeafKind,
    l: Leaf,
    res: Result<Value, DecodeError>,
)
    ensures
        l.kind == k && l.data != 0 ==> (decodes(
            reg,
            DecodePlan::OptionalSentinel(k),
            RawValue::Scalar(l),
            res,
        ) <==> res == Ok::<Value, DecodeError>(Value::Scalar(l))),
        decodes(reg, DecodePlan::OptionalSentinel(k), RawValue::Scalar(l), Ok(Value::Scalar(l)))
            ==> l.data != 0,
        decodes(reg, DecodePlan::OptionalSentinel(k), RawValue::Absent, res) <==> res
            == Ok::<Value, DecodeError>(Value::Nothing),
{
}

/// Decoding a sequence: with raw elements present, the output is a list
/// of the same length whose element `i` is the inner plan's decode of raw
/// element `i`, order preserved; an absent sequence fails with
/// `EmptyContainer` and nothing else.
pub proof fn lemma_sequence_decode(
    reg: Registry,
    plan: DecodePlan,
    inner: DecodePlan,
    elems: Vec<RawValue>,
    out: Vec<Value>,
    res: Result<Value, DecodeError>,
)
    requires
        plan matches DecodePlan::SequenceOf(b) && *b == inner,
    ensures
        decodes(reg, plan, RawValue::Items(elems), Ok(Value::List(out))) <==> (out@.len()
            == elems@.len() && forall|i: int|
            0 <= i < elems@.len() ==> decodes(reg, inner, #[trigger] elems@[i], Ok(out@[i]))),
        decodes(reg, plan, RawValue::Absent, res) <==> res == Err::<Value, DecodeError>(
            DecodeError::EmptyContainer,
        ),
{
}

/// Decoding a mapping: with raw entries present, the output has one entry
/// per raw entry, its key taken verbatim and its value the inner plan's
/// decode of the raw entry value; keys unique in the raw input stay
/// unique; an absent mapping fails with `EmptyContainer` and nothing
/// else.
pub proof fn lemma_map_decode(
    reg: Registry,
    plan: DecodePlan,
    k: LeafKind,
    inner: DecodePlan,
    entries: Vec<(Leaf, RawValue)>,
    out: Vec<(Leaf, Value)>,
    res: Result<Value, DecodeError>,
)
    requires
        plan matches DecodePlan::MapOf(mk, b) && mk == k && *b == inner,
    ensures
        decodes(reg, plan, RawValue::Entries(entries), Ok(Value::Dict(out))) <==> (out@.len()
            == entries@.len() && forall|i: int|
            0 <= i < entries@.len() ==> ((#[trigger] entries@[i]).0.kind == k && out@[i].0
                == entries@[i].0 && decodes(reg, inner, entries@[i].1, Ok(out@[i].1)))),
        (decodes(reg, plan, RawValue::Entries(entries), Ok(Value::Dict(out))) && (forall|
            i: int,
            j: int,
        |
            0 <= i < j < entries@.len() ==> (#[trigger] entries@[i]).0 != (
            #[trigger] entries@[j]).0)) ==> (forall|i: int, j: int|
            0 <= i < j < out@.len() ==> (#[trigger] out@[i]).0 != (#[trigger] out@[j]).0),
        decodes(reg, plan, RawValue::Absent, res) <==> res == Err::<Value, DecodeError>(
            DecodeError::EmptyContainer,
        ),
{
    if decodes(reg, plan, RawValue::Entries(entries), Ok(Value::Dict(out))) && (forall|
        i: int,
        j: int,
    |
        0 <= i < j < entries@.len() ==> (#[trigger] entries@[i]).0 != (#[trigger] entries@[j]).0) {
        assert forall|i: int, j: int| 0 <= i < j < out@.len() implies (#[trigger] out@[i]).0 != (
        #[trigger] out@[j]).0 by {
            assert(out@[i].0 == entries@[i].0);
            assert(out@[j].0 == entries@[j].0);
        }
    }
}

/// A field whose type fell to the nested-record default decodes by
/// delegating wholly to the named record's own registered plan: each of
/// that plan's fields runs against the raw composite's pair of the same
/// name, with no special-casing at the outer level; a name with no
/// registered plan fails with `UnknownRecord` and nothing else.
pub proof fn lemma_record_delegates(
    reg: Registry,
    name: String,
    rp: RecordPlan,
    pairs: Vec<(String, RawValue)>,
    out: Vec<(String, Value)>,
    raw: RawValue,
    res: Result<Value, DecodeError>,
)
    ensures
        lookup_spec(reg.records@, name@) == Some(rp) ==> (decodes(
            reg,
            DecodePlan::RecordOf(name),
            RawValue::Composite(pairs),
            Ok(Value::Record(out)),
        ) <==> (out@.len() == rp.fields@.len() && forall|i: int|
            0 <= i < rp.fields@.len() ==> ((#[trigger] out@[i]).0@ == rp.fields@[i].0@
                && field_decodes(reg, rp.fields@[i].1, pairs@, rp.fields@[i].0@, Ok(out@[i].1))))),
        lookup_spec(reg.records@, name@) is None ==> (decodes(
            reg,
            DecodePlan::RecordOf(name),
            raw,
            res,
        ) <==> res == Err::<Value, DecodeError>(DecodeError::UnknownRecord)),
{
}

/// Decode outcomes are exclusive: a raw value that decodes to a value
/// under a plan admits no failing outcome under the same plan, so
/// success and failure never overlap.
pub proof fn lemma_outcomes_exclusive(
    reg: Registry,
    plan: DecodePlan,
    raw: RawValue,
    v: Value,
    e: DecodeError,
)
    requires
        decodes(reg, plan, raw, Ok(v)),
    ensures
        !decodes(reg, plan, raw, Err(e)),
    decreases raw, plan,
{
    if decodes(reg, plan, raw, Err(e)) {
        match plan {
            DecodePlan::LeafConvert(_) => {},
            DecodePlan::OptionalSentinel(_) => {},
            DecodePlan::SequenceOf(inner) => match raw {
                RawValue::Items(elems) => {
                    if let Value::List(out) = v {
                        let i = choose|i: int|
                            0 <= i < elems@.len() && decodes(
                                reg,
                                *inner,
                                #[trigger] elems@[i],
                                Err(e),
                            );
                        assert(decodes(reg, *inner, elems@[i], Ok(out@[i])));
                        lemma_outcomes_exclusive(reg, *inner, elems@[i], out@[i], e);
                        assert(false);
                    }
                },
                _ => {},
            },
            DecodePlan::MapOf(k, inner) => match raw {
                RawValue::Entries(entries) => {
                    if let Value::Dict(out) = v {
                        let i = choose|i: int|
                            0 <= i < entries@.len() && if (#[trigger] entries@[i]).0.kind != k {
                                Err::<Value, DecodeError>(e) == Err::<Value, DecodeError>(
                                    DecodeError::CodecFailed,
                                )
                            } else {
                                decodes(reg, *inner, entries@[i].1, Err(e))
                            };
                        assert(entries@[i].0.kind == k && decodes(reg, *inner, entries@[i].1, Ok(
                            out@[i].1,
                        )));
                        lemma_outcomes_exclusive(reg, *inner, entries@[i].1, out@[i].1, e);
                        assert(false);
                    }
                },
                _ => {},
            },
            DecodePlan::OptionalOf(inner) => match raw {
                RawValue::Absent => {},
                _ => {
                    if let Value::Present(bv) = v {
                        lemma_outcomes_exclusive(reg, *inner, raw, *bv, e);
                        assert(false);
                    }
                },
            },
            DecodePlan::RecordOf(name) => {
                let looked = lookup_spec(reg.records@, name@);
                if looked is Some {
                    match raw {
                        RawValue::Composite(pairs) => {
                            if let Value::Record(out) = v {
                                let i = choose|i: int|
                                    0 <= i < (looked->Some_0).fields@.len() && field_decodes(
                                        reg,
                                        (#[trigger] (looked->Some_0).fields@[i]).1,
                                        pairs@,
                                        (looked->Some_0).fields@[i].0@,
                                        Err(e),
                                    );
                                assert(field_decodes(
                                    reg,
                                    (looked->Some_0).fields@[i].1,
                                    pairs@,
                                    (looked->Some_0).fields@[i].0@,
                                    Ok(out@[i].1),
                                ));
                                lemma_field_outcomes_exclusive(
                                    reg,
                                    (looked->Some_0).fields@[i].1,
                                    pairs@,
                                    (looked->Some_0).fields@[i].0@,
                                    out@[i].1,
                                    e,
                                );
                                assert(false);
                            }
                        },
                        _ => {},
                    }
                }
            },
        }
    }
}

/// One record field's decode outcomes are exclusive: the first raw pair
/// carrying the field's name is unique, so the field's fetch-and-decode
/// admits no failing outcome beside a successful one.
pub proof fn lemma_field_outcomes_exclusive(
    reg: Registry,
    fplan: DecodePlan,
    pairs: Seq<(String, RawValue)>,
    fname: Seq<char>,
    v: Value,
    e: DecodeError,
)
    requires
        field_decodes(reg, fplan, pairs, fname, Ok(v)),
    ensures
        !field_decodes(reg, fplan, pairs, fname, Err(e)),
    decreases pairs, fplan,
{
    if field_decodes(reg, fplan, pairs, fname, Err(e)) {
        if exists|j: int| 0 <= j < pairs.len() && (#[trigger] pairs[j]).0@ == fname {
            let j1 = choose|j: int|
                {
                    &&& 0 <= j < pairs.len()
                    &&& (#[trigger] pairs[j]).0@ == fname
                    &&& forall|j2: int| 0 <= j2 < j ==> (#[trigger] pairs[j2]).0@ != fname
                    &&& decodes(reg, fplan, pairs[j].1, Ok(v))
                };
            let j2 = choose|j: int|
                {
                    &&& 0 <= j < pairs.len()
                    &&& (#[trigger] pairs[j]).0@ == fname
                    &&& forall|j3: int| 0 <= j3 < j ==> (#[trigger] pairs[j3]).0@ != fname
                    &&& decodes(reg, fplan, pairs[j].1, Err(e))
                };
            if j1 < j2 {
                assert(pairs[j1].0@ != fname);
            } else if j2 < j1 {
                assert(pairs[j2].0@ != fname);
            } else {
                lemma_outcomes_exclusive(reg, fplan, pairs[j1].1, v, e);
                assert(false);
            }
        }
    }
}

} // verus!
