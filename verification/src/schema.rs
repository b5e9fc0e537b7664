//! The structural type expressions a caller declares fields with, the
//! field schema of a record, and the resolver that takes an expression
//! apart into an identifier and its ordered generic arguments.

use vstd::prelude::*;

verus! {

/// A structural type expression: a named type with ordered generic
/// arguments, or one of the shapes the planners reject.
///
/// The tree is immutable once built; `Named` with an empty argument list
/// is a plain leaf name.
pub enum TypeExpr {
    /// A simple named type with ordered generic arguments.
    Named { ident: String, args: Vec<TypeExpr> },
    /// A tuple type: not a named-with-generics shape.
    Tuple(Vec<TypeExpr>),
    /// A reference type: not a named-with-generics shape.
    Reference(Box<TypeExpr>),
    /// An array type: not a named-with-generics shape.
    Array(Box<TypeExpr>),
}

/// A schema-shape fault: planning for the whole record aborts on it.
#[derive(Clone, Copy, Debug, PartialEq, Eq, Structural)]
pub enum SchemaError {
    /// The type expression is not a simple named-with-generics shape.
    TypeResolution,
    /// A composite carries the wrong number of generic arguments:
    /// sequences and optionals take exactly one, mappings exactly two.
    Arity,
}

/// One declared field: a name and the type expression behind it.
pub struct FieldDef {
    /// The field's name, unique within its schema.
    pub name: String,
    /// The field's declared type.
    pub ty: TypeExpr,
}

/// Field names are unique within one schema.
pub open spec fn schema_wf(fields: Seq<FieldDef>) -> bool {
    forall|i: int, j: int|
        0 <= i < j < fields.len() ==> fields[i].name@ != fields[j].name@
}

/// Takes a type expression apart: the identifier and the ordered generic
/// arguments of a `Named` shape, or `TypeResolution` for every other
/// shape.
pub fn resolve<'a>(t: &'a TypeExpr) -> (r: Result<(&'a String, &'a Vec<TypeExpr>), SchemaError>)
    ensures
        match t {
            TypeExpr::Named { ident, args } => {
                &&& r is Ok
                &&& r->Ok_0.0 == ident
                &&& r->Ok_0.1 == args
            },
            _ => r == Result::<(&'a String, &'a Vec<TypeExpr>), SchemaError>::Err(
                SchemaError::TypeResolution,
            ),
        },
{
    match t {
        TypeExpr::Named { ident, args } => Ok((ident, args)),
        _ => Err(SchemaError::TypeResolution),
    }
}

} // verus!
