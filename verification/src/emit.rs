//! The record schema emitter: the parametrized insert statement template
//! with one positional placeholder per field in declared order, and the
//! name-to-encoded-value pairing for outbound statements.

use crate::schema::{schema_wf, FieldDef};
use vstd::prelude::*;
use vstd::string::StringExecFns;

verus! {

/// The names of the first `i` declared fields, joined with `", "`.
pub open spec fn names_join(fields: Seq<FieldDef>, i: int) -> Seq<char>
    decreases i,
{
    if i <= 0 {
        Seq::empty()
    } else if i == 1 {
        fields[0].name@
    } else {
        names_join(fields, i - 1) + ", "@ + fields[i - 1].name@
    }
}

/// `i` positional placeholders, joined with `", "`.
pub open spec fn marks_join(i: int) -> Seq<char>
    decreases i,
{
    if i <= 0 {
        Seq::empty()
    } else if i == 1 {
        "?"@
    } else {
        marks_join(i - 1) + ", "@ + "?"@
    }
}

/// The insert statement template for a record type: its name, the field
/// names in declared order, and one placeholder per field in the same
/// order.
pub open spec fn template_spec(name: Seq<char>, fields: Seq<FieldDef>) -> Seq<char> {
    "insert into "@ + name + "("@ + names_join(fields, fields.len() as int) + ") values ("@
        + marks_join(fields.len() as int) + ")"@
}

/// Builds the insert statement template for a record type.
pub fn insert_template(table_name: &str, schema: &Vec<FieldDef>) -> (r: String)
    ensures
        r@ == template_spec(table_name@, schema@),
{
    let mut s: String = String::new();
    s.append("insert into ");
    s.append(table_name);
    s.append("(");
    let ghost head: Seq<char> = "insert into "@ + table_name@ + "("@;
    proof {
        assert(s@ =~= head + names_join(schema@, 0));
    }
    let mut i: usize = 0;
    while i < schema.len()
        invariant
            i <= schema@.len(),
            s@ == head + names_join(schema@, i as int),
        decreases schema@.len() - i,
    {
        if i > 0 {
            s.append(", ");
        }
        s.append(schema[i].name.as_str());
        proof {
            assert(s@ =~= head + names_join(schema@, i + 1 as int));
        }
        i += 1;
    }
    s.append(") values (");
    let ghost mid: Seq<char> = head + names_join(schema@, schema@.len() as int) + ") values ("@;
    proof {
        assert(s@ =~= mid + marks_join(0));
    }
    let mut j: usize = 0;
    while j < schema.len()
        invariant
            j <= schema@.len(),
            s@ == mid + marks_join(j as int),
        decreases schema@.len() - j,
    {
        if j > 0 {
            s.append(", ");
        }
        s.append("?");
        proof {
            assert(s@ =~= mid + marks_join(j + 1 as int));
        }
        j += 1;
    }
    s.append(")");
    proof {
        assert(s@ =~= template_spec(table_name@, schema@));
    }
    s
}

/// Copies a byte form.
fn copy_bytes(b: &Vec<u8>) -> (r: Vec<u8>)
    ensures
        r@ == b@,
{
    let mut r: Vec<u8> = Vec::new();
    let mut i: usize = 0;
    while i < b.len()
        invariant
            i <= b@.len(),
            r@ == b@.subrange(0, i as int),
        decreases b@.len() - i,
    {
        r.push(b[i]);
        proof {
            assert(r@ =~= b@.subrange(0, i + 1 as int));
        }
        i += 1;
    }
    proof {
        assert(r@ =~= b@);
    }
    r
}

/// Pairs each declared field's name with the field's encoded value, in
/// declared order. The names stay unique when the schema's are.
pub fn to_named_values(schema: &Vec<FieldDef>, values: &Vec<Vec<u8>>) -> (r: Vec<
    (String, Vec<u8>),
>)
    requires
        values@.len() == schema@.len(),
    ensures
        r@.len() == schema@.len(),
        forall|i: int|
            0 <= i < r@.len() ==> (#[trigger] r@[i]).0@ == schema@[i].name@ && r@[i].1@
                == values@[i]@,
        schema_wf(schema@) ==> forall|i: int, j: int|
            0 <= i < j < r@.len() ==> (#[trigger] r@[i]).0@ != (#[trigger] r@[j]).0@,
{
    let mut r: Vec<(String, Vec<u8>)> = Vec::new();
    let mut i: usize = 0;
    while i < schema.len()
        invariant
            i <= schema@.len(),
            values@.len() == schema@.len(),
            r@.len() == i,
            forall|j: int|
                0 <= j < i ==> (#[trigger] r@[j]).0@ == schema@[j].name@ && r@[j].1@
                    == values@[j]@,
        decreases schema@.len() - i,
    {
        r.push((schema[i].name.clone(), copy_bytes(&values[i])));
        i += 1;
    }
    r
}

} // verus!
