use db_mirror::encode::{plan_encode, plan_record_encode, EncodePlan};
use db_mirror::kind::{classify, LeafKind};
use db_mirror::plan::{plan_decode, plan_record, validate_record_plan, DecodePlan, Registry};
use db_mirror::schema::{resolve, FieldDef, SchemaError, TypeExpr};

fn named(ident: &str, args: Vec<TypeExpr>) -> TypeExpr {
    TypeExpr::Named { ident: ident.to_string(), args }
}

fn leaf(ident: &str) -> TypeExpr {
    named(ident, Vec::new())
}

fn field(name: &str, ty: TypeExpr) -> FieldDef {
    FieldDef { name: name.to_string(), ty }
}

#[test]
fn test_classify_known_names() {
    assert_eq!(LeafKind::Blob, classify("Blob"));
    assert_eq!(LeafKind::Text, classify("String"));
    assert_eq!(LeafKind::Boolean, classify("bool"));
    assert_eq!(LeafKind::Int8, classify("i8"));
    assert_eq!(LeafKind::Int64, classify("i64"));
    assert_eq!(LeafKind::Float32, classify("f32"));
    assert_eq!(LeafKind::Decimal, classify("Decimal"));
    assert_eq!(LeafKind::Inet, classify("IpAddr"));
    assert_eq!(LeafKind::Uuid, classify("Uuid"));
    assert_eq!(LeafKind::Timespec, classify("Timespec"));
    assert_eq!(LeafKind::DateTimePrimitive, classify("PrimitiveDateTime"));
    assert_eq!(LeafKind::DateTimeNaive, classify("NaiveDateTime"));
    assert_eq!(LeafKind::DateTimeZoned, classify("DateTime"));
    assert_eq!(LeafKind::List, classify("Vec"));
    assert_eq!(LeafKind::Dict, classify("HashMap"));
    assert_eq!(LeafKind::Opt, classify("Option"));
    assert_eq!(LeafKind::SentinelInt32, classify("NonZeroI32"));
}

#[test]
fn test_classify_unknown_name_is_record() {
    assert_eq!(LeafKind::Record, classify("SomethingElse"));
    assert_eq!(LeafKind::Record, classify(""));
}

#[test]
fn test_resolve_rejects_tuple() {
    let t = TypeExpr::Tuple(vec![leaf("i32"), leaf("i64")]);
    assert_eq!(Err(SchemaError::TypeResolution), resolve(&t).map(|_| ()));
}

#[test]
fn test_plan_scalar_leaf() {
    match plan_decode(&leaf("i32")) {
        Ok(DecodePlan::LeafConvert(k)) => assert_eq!(LeafKind::Int32, k),
        _ => panic!("expected a leaf conversion plan"),
    }
}

#[test]
fn test_plan_nested_sequence() {
    let t = named("Vec", vec![named("Vec", vec![leaf("i32")])]);
    match plan_decode(&t) {
        Ok(DecodePlan::SequenceOf(inner)) => match *inner {
            DecodePlan::SequenceOf(inner2) => match *inner2 {
                DecodePlan::LeafConvert(k) => assert_eq!(LeafKind::Int32, k),
                _ => panic!("expected a leaf at the bottom"),
            },
            _ => panic!("expected a nested sequence plan"),
        },
        _ => panic!("expected a sequence plan"),
    }
}

#[test]
fn test_map_arity_violation_fails_at_planning() {
    let t = named("HashMap", vec![leaf("i64")]);
    match plan_decode(&t) {
        Err(SchemaError::Arity) => {},
        _ => panic!("a mapping with one generic argument must fail planning"),
    }
}

#[test]
fn test_sequence_arity_violation_fails_at_planning() {
    let t = named("Vec", Vec::new());
    match plan_decode(&t) {
        Err(SchemaError::Arity) => {},
        _ => panic!("a sequence without its element type must fail planning"),
    }
}

#[test]
fn test_optional_arity_violation_fails_at_planning() {
    let t = named("Option", vec![leaf("i32"), leaf("i64")]);
    match plan_decode(&t) {
        Err(SchemaError::Arity) => {},
        _ => panic!("an optional with two generic arguments must fail planning"),
    }
}

#[test]
fn test_optional_sentinel_mode_has_no_wrapper() {
    let t = named("Option", vec![leaf("NonZeroI32")]);
    match plan_decode(&t) {
        Ok(DecodePlan::OptionalSentinel(k)) => assert_eq!(LeafKind::SentinelInt32, k),
        _ => panic!("optional over a sentinel scalar must degenerate to the bare scalar"),
    }
}

#[test]
fn test_optional_general_mode() {
    let t = named("Option", vec![leaf("String")]);
    match plan_decode(&t) {
        Ok(DecodePlan::OptionalOf(inner)) => match *inner {
            DecodePlan::LeafConvert(k) => assert_eq!(LeafKind::Text, k),
            _ => panic!("expected the inner leaf plan"),
        },
        _ => panic!("expected a general optional plan"),
    }
}

#[test]
fn test_unknown_name_plans_nested_record() {
    match plan_decode(&leaf("N")) {
        Ok(DecodePlan::RecordOf(name)) => assert_eq!("N", name.as_str()),
        _ => panic!("an unknown name must fall to the nested-record default"),
    }
}

#[test]
fn test_plan_record_fault_names_field() {
    let schema = vec![
        field("pk", leaf("i32")),
        field("tally", named("HashMap", vec![leaf("i64")])),
    ];
    match plan_record(&schema) {
        Err(f) => {
            assert_eq!("tally", f.field.as_str());
            assert_eq!(SchemaError::Arity, f.error);
        },
        Ok(_) => panic!("arity violations are found at schema-processing time"),
    }
}

#[test]
fn test_encode_plan_branches_only_on_optional() {
    assert_eq!(Ok(EncodePlan::DirectBytes), plan_encode(&leaf("i32")));
    assert_eq!(Ok(EncodePlan::DirectBytes), plan_encode(&named("Vec", vec![leaf("i32")])));
    assert_eq!(
        Ok(EncodePlan::OptionalBranch),
        plan_encode(&named("Option", vec![leaf("String")]))
    );
    assert_eq!(Err(SchemaError::TypeResolution), plan_encode(&TypeExpr::Tuple(Vec::new())));
}

#[test]
fn test_plan_record_encode_in_order() {
    let schema = vec![
        field("pk", leaf("i32")),
        field("ts", named("Option", vec![leaf("PrimitiveDateTime")])),
    ];
    let plans = plan_record_encode(&schema).expect("schema is well formed");
    assert_eq!(vec![EncodePlan::DirectBytes, EncodePlan::OptionalBranch], plans);
}

#[test]
fn test_validation_finds_missing_record_delegate() {
    let schema = vec![
        field("pk", leaf("i32")),
        field("tally", named("HashMap", vec![leaf("i64"), leaf("N")])),
    ];
    let rp = plan_record(&schema).expect("schema is well formed");
    let empty = Registry { records: Vec::new() };
    assert!(!validate_record_plan(&rp, &empty));
    let n_plan = plan_record(&vec![field("n", leaf("i16"))]).expect("schema is well formed");
    let reg = Registry { records: vec![("N".to_string(), n_plan)] };
    assert!(validate_record_plan(&rp, &reg));
}
