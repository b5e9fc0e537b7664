use db_mirror::emit::{insert_template, to_named_values};
use db_mirror::schema::{FieldDef, TypeExpr};
use db_mirror::text::remove_r;

fn named(ident: &str) -> TypeExpr {
    TypeExpr::Named { ident: ident.to_string(), args: Vec::new() }
}

fn field(name: &str, ty: TypeExpr) -> FieldDef {
    FieldDef { name: name.to_string(), ty }
}

#[test]
fn test_insert_query() {
    let schema = vec![field("pk", named("i32")), field("name", named("String"))];
    assert_eq!(
        "insert into SomeStruct(pk, name) values (?, ?)",
        insert_template("SomeStruct", &schema).as_str()
    );
}

#[test]
fn test_insert_query_single_field() {
    let schema = vec![field("pk", named("i32"))];
    assert_eq!("insert into T(pk) values (?)", insert_template("T", &schema).as_str());
}

#[test]
fn test_insert_query_no_fields() {
    let schema: Vec<FieldDef> = Vec::new();
    assert_eq!("insert into T() values ()", insert_template("T", &schema).as_str());
}

#[test]
fn test_into_query_values() {
    let pk_bytes: Vec<u8> = vec![0, 0, 0, 1];
    let name_bytes: Vec<u8> = "some name".as_bytes().to_vec();
    let schema = vec![field("pk", named("i32")), field("name", named("String"))];
    let values = vec![pk_bytes.clone(), name_bytes.clone()];
    let nv = to_named_values(&schema, &values);
    assert_eq!(2, nv.len());
    let pk_entry = nv.iter().find(|p| p.0 == "pk").expect("Expected named values");
    assert_eq!(&pk_bytes, &pk_entry.1);
    let name_entry = nv.iter().find(|p| p.0 == "name").expect("Expected named values");
    assert_eq!(&name_bytes, &name_entry.1);
}

#[test]
fn test_remove_r_strips_prefix() {
    assert_eq!("type", remove_r("r#type".to_string()).as_str());
}

#[test]
fn test_remove_r_plain_name_unchanged() {
    assert_eq!("name", remove_r("name".to_string()).as_str());
}

#[test]
fn test_remove_r_short_name_unchanged() {
    assert_eq!("r", remove_r("r".to_string()).as_str());
    assert_eq!("", remove_r(String::new()).as_str());
}
