use db_mirror::decode::{
    decode_record, run_decode, DecodeError, Leaf, RawValue, Value,
};
use db_mirror::kind::LeafKind;
use db_mirror::plan::{plan_decode, plan_record, Registry};
use db_mirror::schema::{FieldDef, TypeExpr};

fn named(ident: &str, args: Vec<TypeExpr>) -> TypeExpr {
    TypeExpr::Named { ident: ident.to_string(), args }
}

fn leaf_ty(ident: &str) -> TypeExpr {
    named(ident, Vec::new())
}

fn field(name: &str, ty: TypeExpr) -> FieldDef {
    FieldDef { name: name.to_string(), ty }
}

fn scalar(kind: LeafKind, data: i64) -> RawValue {
    RawValue::Scalar(Leaf { kind, data })
}

fn empty_registry() -> Registry {
    Registry { records: Vec::new() }
}

fn expect_scalar(v: &Value) -> Leaf {
    match v {
        Value::Scalar(l) => *l,
        _ => panic!("expected a scalar value"),
    }
}

#[test]
fn test_leaf_identity() {
    let reg = empty_registry();
    let plan = plan_decode(&leaf_ty("i32")).unwrap();
    let res = run_decode(&reg, &plan, &scalar(LeafKind::Int32, 12)).unwrap();
    assert_eq!(Leaf { kind: LeafKind::Int32, data: 12 }, expect_scalar(&res));
}

#[test]
fn test_leaf_kind_mismatch_is_codec_failure() {
    let reg = empty_registry();
    let plan = plan_decode(&leaf_ty("i32")).unwrap();
    match run_decode(&reg, &plan, &scalar(LeafKind::Int64, 12)) {
        Err(DecodeError::CodecFailed) => {},
        _ => panic!("a raw value of another kind is the codec's failure"),
    }
}

#[test]
fn test_leaf_absent_is_missing_value() {
    let reg = empty_registry();
    let plan = plan_decode(&leaf_ty("i32")).unwrap();
    match run_decode(&reg, &plan, &RawValue::Absent) {
        Err(DecodeError::MissingValue) => {},
        _ => panic!("an absent mandatory leaf is a missing value"),
    }
}

#[test]
fn test_optional_absent_yields_empty_state() {
    let reg = empty_registry();
    let plan = plan_decode(&named("Option", vec![leaf_ty("String")])).unwrap();
    match run_decode(&reg, &plan, &RawValue::Absent) {
        Ok(Value::Nothing) => {},
        _ => panic!("an absent optional decodes to the empty state"),
    }
}

#[test]
fn test_optional_present_wraps_inner_decode() {
    let reg = empty_registry();
    let plan = plan_decode(&named("Option", vec![leaf_ty("i64")])).unwrap();
    match run_decode(&reg, &plan, &scalar(LeafKind::Int64, 9)) {
        Ok(Value::Present(inner)) => {
            assert_eq!(Leaf { kind: LeafKind::Int64, data: 9 }, expect_scalar(&inner));
        },
        _ => panic!("a present optional wraps the inner decode"),
    }
}

#[test]
fn test_sentinel_yields_bare_scalar() {
    let reg = empty_registry();
    let plan = plan_decode(&named("Option", vec![leaf_ty("NonZeroI32")])).unwrap();
    match run_decode(&reg, &plan, &scalar(LeafKind::SentinelInt32, 7)) {
        Ok(Value::Scalar(l)) => assert_eq!(7, l.data),
        _ => panic!("sentinel mode yields the bare scalar, no wrapper"),
    }
}

#[test]
fn test_sentinel_excluded_zero_never_observed() {
    let reg = empty_registry();
    let plan = plan_decode(&named("Option", vec![leaf_ty("NonZeroI32")])).unwrap();
    match run_decode(&reg, &plan, &scalar(LeafKind::SentinelInt32, 0)) {
        Err(DecodeError::CodecFailed) => {},
        _ => panic!("the excluded zero is never a valid observed result"),
    }
}

#[test]
fn test_sentinel_absent_yields_empty_state() {
    let reg = empty_registry();
    let plan = plan_decode(&named("Option", vec![leaf_ty("NonZeroI32")])).unwrap();
    match run_decode(&reg, &plan, &RawValue::Absent) {
        Ok(Value::Nothing) => {},
        _ => panic!("absence lives inside the sentinel codec"),
    }
}

#[test]
fn test_sequence_order_and_length_preserved() {
    let reg = empty_registry();
    let plan = plan_decode(&named("Vec", vec![leaf_ty("i32")])).unwrap();
    let raw = RawValue::Items(vec![
        scalar(LeafKind::Int32, 1),
        scalar(LeafKind::Int32, 2),
        scalar(LeafKind::Int32, 3),
    ]);
    match run_decode(&reg, &plan, &raw) {
        Ok(Value::List(out)) => {
            assert_eq!(3, out.len());
            for (i, v) in out.iter().enumerate() {
                assert_eq!((i + 1) as i64, expect_scalar(v).data);
            }
        },
        _ => panic!("expected a decoded list"),
    }
}

#[test]
fn test_sequence_absent_is_empty_container() {
    let reg = empty_registry();
    let plan = plan_decode(&named("Vec", vec![leaf_ty("i32")])).unwrap();
    match run_decode(&reg, &plan, &RawValue::Absent) {
        Err(DecodeError::EmptyContainer) => {},
        _ => panic!("an absent sequence fails with EmptyContainer"),
    }
}

#[test]
fn test_map_keys_verbatim_values_decoded() {
    let reg = empty_registry();
    let plan = plan_decode(&named("HashMap", vec![leaf_ty("i64"), leaf_ty("String")])).unwrap();
    let k1 = Leaf { kind: LeafKind::Int64, data: 10 };
    let k2 = Leaf { kind: LeafKind::Int64, data: 20 };
    let raw = RawValue::Entries(vec![
        (k1, scalar(LeafKind::Text, 111)),
        (k2, scalar(LeafKind::Text, 222)),
    ]);
    match run_decode(&reg, &plan, &raw) {
        Ok(Value::Dict(out)) => {
            assert_eq!(2, out.len());
            assert_eq!(k1, out[0].0);
            assert_eq!(111, expect_scalar(&out[0].1).data);
            assert_eq!(k2, out[1].0);
            assert_eq!(222, expect_scalar(&out[1].1).data);
        },
        _ => panic!("expected a decoded mapping"),
    }
}

#[test]
fn test_map_absent_is_empty_container() {
    let reg = empty_registry();
    let plan = plan_decode(&named("HashMap", vec![leaf_ty("i64"), leaf_ty("String")])).unwrap();
    match run_decode(&reg, &plan, &RawValue::Absent) {
        Err(DecodeError::EmptyContainer) => {},
        _ => panic!("an absent mapping fails with EmptyContainer"),
    }
}

#[test]
fn test_nested_record_delegates() {
    let n_schema = vec![field("n", leaf_ty("i16"))];
    let n_plan = plan_record(&n_schema).unwrap();
    let reg = Registry { records: vec![("N".to_string(), n_plan)] };
    let plan = plan_decode(&leaf_ty("N")).unwrap();
    let raw = RawValue::Composite(vec![("n".to_string(), scalar(LeafKind::Int16, 3))]);
    match run_decode(&reg, &plan, &raw) {
        Ok(Value::Record(fields)) => {
            assert_eq!(1, fields.len());
            assert_eq!("n", fields[0].0.as_str());
            assert_eq!(3, expect_scalar(&fields[0].1).data);
        },
        _ => panic!("a record field delegates to the named record's own plan"),
    }
}

#[test]
fn test_unregistered_record_is_unknown() {
    let reg = empty_registry();
    let plan = plan_decode(&leaf_ty("Missing")).unwrap();
    let raw = RawValue::Composite(Vec::new());
    match run_decode(&reg, &plan, &raw) {
        Err(DecodeError::UnknownRecord) => {},
        _ => panic!("a name without a registered plan fails with UnknownRecord"),
    }
}

#[test]
fn test_end_to_end_nested_record() {
    // number: i32, grid: Vec<Vec<i32>>, tally: HashMap<i64, N>,
    // extra: Option<HashMap<i64, N>>, ts: Option<PrimitiveDateTime>
    let n_schema = vec![field("n", leaf_ty("i16"))];
    let udt_schema = vec![
        field("number", leaf_ty("i32")),
        field("grid", named("Vec", vec![named("Vec", vec![leaf_ty("i32")])])),
        field("tally", named("HashMap", vec![leaf_ty("i64"), leaf_ty("N")])),
        field(
            "extra",
            named("Option", vec![named("HashMap", vec![leaf_ty("i64"), leaf_ty("N")])]),
        ),
        field("ts", named("Option", vec![leaf_ty("PrimitiveDateTime")])),
    ];
    let reg = Registry {
        records: vec![
            ("Udt".to_string(), plan_record(&udt_schema).unwrap()),
            ("N".to_string(), plan_record(&n_schema).unwrap()),
        ],
    };
    let key = Leaf { kind: LeafKind::Int64, data: 5 };
    let n_raw = RawValue::Composite(vec![("n".to_string(), scalar(LeafKind::Int16, 3))]);
    let raw = RawValue::Composite(vec![
        ("number".to_string(), scalar(LeafKind::Int32, 12)),
        (
            "grid".to_string(),
            RawValue::Items(vec![RawValue::Items(vec![
                scalar(LeafKind::Int32, 1),
                scalar(LeafKind::Int32, 2),
            ])]),
        ),
        ("tally".to_string(), RawValue::Entries(vec![(key, n_raw)])),
        // extra and ts are absent: no raw pair carries their names
    ]);
    let decoded = decode_record(&reg, &"Udt".to_string(), &raw).unwrap();
    let fields = match decoded {
        Value::Record(fields) => fields,
        _ => panic!("expected a decoded record"),
    };
    assert_eq!(5, fields.len());
    assert_eq!("number", fields[0].0.as_str());
    assert_eq!(12, expect_scalar(&fields[0].1).data);
    assert_eq!("grid", fields[1].0.as_str());
    match &fields[1].1 {
        Value::List(rows) => {
            assert_eq!(1, rows.len());
            match &rows[0] {
                Value::List(cells) => {
                    assert_eq!(2, cells.len());
                    assert_eq!(1, expect_scalar(&cells[0]).data);
                    assert_eq!(2, expect_scalar(&cells[1]).data);
                },
                _ => panic!("expected the inner list"),
            }
        },
        _ => panic!("expected the outer list"),
    }
    assert_eq!("tally", fields[2].0.as_str());
    match &fields[2].1 {
        Value::Dict(entries) => {
            assert_eq!(1, entries.len());
            assert_eq!(key, entries[0].0);
            match &entries[0].1 {
                Value::Record(inner) => {
                    assert_eq!(1, inner.len());
                    assert_eq!("n", inner[0].0.as_str());
                    assert_eq!(3, expect_scalar(&inner[0].1).data);
                },
                _ => panic!("expected the nested record"),
            }
        },
        _ => panic!("expected the mapping"),
    }
    assert_eq!("extra", fields[3].0.as_str());
    assert!(matches!(fields[3].1, Value::Nothing));
    assert_eq!("ts", fields[4].0.as_str());
    assert!(matches!(fields[4].1, Value::Nothing));
}
