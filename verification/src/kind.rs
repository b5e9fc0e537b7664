//! The leaf kind table: a fixed, read-only mapping from canonical type
//! identifiers to the closed set of categories the planners branch on.
//!
//! Every identifier resolves to exactly one category; an identifier the
//! table does not know falls to [`LeafKind::Record`], the open-world
//! default that stands for a nested record type.

use crate::text::str_eq;
use vstd::prelude::*;

verus! {

/// The canonical category a resolved type identifier falls in: a scalar
/// leaf, one of the three composites, a zero-excluding sentinel scalar, or
/// the nested-record default.
#[derive(Clone, Copy, Debug, PartialEq, Eq, Structural)]
pub enum LeafKind {
    /// Byte blob.
    Blob,
    /// Text.
    Text,
    /// Boolean.
    Boolean,
    /// Signed integer, 8 bits.
    Int8,
    /// Signed integer, 16 bits.
    Int16,
    /// Signed integer, 32 bits.
    Int32,
    /// Signed integer, 64 bits.
    Int64,
    /// Floating point, 32 bits. The planners never look inside such a
    /// value; its payload stays with the external leaf codec.
    Float32,
    /// Floating point, 64 bits.
    Float64,
    /// Fixed-point decimal.
    Decimal,
    /// IP address.
    Inet,
    /// UUID.
    Uuid,
    /// Timestamp as seconds and nanoseconds.
    Timespec,
    /// Calendar date and time without offset.
    DateTimePrimitive,
    /// Naive date and time.
    DateTimeNaive,
    /// Date and time with offset.
    DateTimeZoned,
    /// Ordered sequence of one element type.
    List,
    /// Mapping from a leaf key type to one value type.
    Dict,
    /// Optional wrapper around one element type.
    Opt,
    /// Zero-excluding signed integer, 8 bits: absence lives inside the
    /// scalar codec, the observed value is never zero.
    SentinelInt8,
    /// Zero-excluding signed integer, 16 bits.
    SentinelInt16,
    /// Zero-excluding signed integer, 32 bits.
    SentinelInt32,
    /// Zero-excluding signed integer, 64 bits.
    SentinelInt64,
    /// Nested record type, decoded by its own declared plan.
    Record,
}

/// The leaf kind table as a function of the identifier's characters.
pub open spec fn classify_spec(ident: Seq<char>) -> LeafKind {
    if ident == "Blob"@ {
        LeafKind::Blob
    } else if ident == "String"@ {
        LeafKind::Text
    } else if ident == "bool"@ {
        LeafKind::Boolean
    } else if ident == "i8"@ {
        LeafKind::Int8
    } else if ident == "i16"@ {
        LeafKind::Int16
    } else if ident == "i32"@ {
        LeafKind::Int32
    } else if ident == "i64"@ {
        LeafKind::Int64
    } else if ident == "f32"@ {
        LeafKind::Float32
    } else if ident == "f64"@ {
        LeafKind::Float64
    } else if ident == "Decimal"@ {
        LeafKind::Decimal
    } else if ident == "IpAddr"@ {
        LeafKind::Inet
    } else if ident == "Uuid"@ {
        LeafKind::Uuid
    } else if ident == "Timespec"@ {
        LeafKind::Timespec
    } else if ident == "PrimitiveDateTime"@ {
        LeafKind::DateTimePrimitive
    } else if ident == "NaiveDateTime"@ {
        LeafKind::DateTimeNaive
    } else if ident == "DateTime"@ {
        LeafKind::DateTimeZoned
    } else if ident == "Vec"@ {
        LeafKind::List
    } else if ident == "HashMap"@ {
        LeafKind::Dict
    } else if ident == "Option"@ {
        LeafKind::Opt
    } else if ident == "NonZeroI8"@ {
        LeafKind::SentinelInt8
    } else if ident == "NonZeroI16"@ {
        LeafKind::SentinelInt16
    } else if ident == "NonZeroI32"@ {
        LeafKind::SentinelInt32
    } else if ident == "NonZeroI64"@ {
        LeafKind::SentinelInt64
    } else {
        LeafKind::Record
    }
}

/// True of the kinds a direct leaf conversion handles: scalars, not the
/// composites, not the sentinel family, not the record default.
pub open spec fn is_scalar(k: LeafKind) -> bool {
    match k {
        LeafKind::Blob => true,
        LeafKind::Text => true,
        LeafKind::Boolean => true,
        LeafKind::Int8 => true,
        LeafKind::Int16 => true,
        LeafKind::Int32 => true,
        LeafKind::Int64 => true,
        LeafKind::Float32 => true,
        LeafKind::Float64 => true,
        LeafKind::Decimal => true,
        LeafKind::Inet => true,
        LeafKind::Uuid => true,
        LeafKind::Timespec => true,
        LeafKind::DateTimePrimitive => true,
        LeafKind::DateTimeNaive => true,
        LeafKind::DateTimeZoned => true,
        _ => false,
    }
}

/// True of the zero-excluding sentinel scalar kinds.
pub open spec fn is_sentinel(k: LeafKind) -> bool {
    match k {
        LeafKind::SentinelInt8 => true,
        LeafKind::SentinelInt16 => true,
        LeafKind::SentinelInt32 => true,
        LeafKind::SentinelInt64 => true,
        _ => false,
    }
}

/// Looks an identifier up in the leaf kind table.
pub fn classify(ident: &str) -> (k: LeafKind)
    ensures
        k == classify_spec(ident@),
{
    if str_eq(ident, "Blob") {
        LeafKind::Blob
    } else if str_eq(ident, "String") {
        LeafKind::Text
    } else if str_eq(ident, "bool") {
        LeafKind::Boolean
    } else if str_eq(ident, "i8") {
        LeafKind::Int8
    } else if str_eq(ident, "i16") {
        LeafKind::Int16
    } else if str_eq(ident, "i32") {
        LeafKind::Int32
    } else if str_eq(ident, "i64") {
        LeafKind::Int64
    } else if str_eq(ident, "f32") {
        LeafKind::Float32
    } else if str_eq(ident, "f64") {
        LeafKind::Float64
    } else if str_eq(ident, "Decimal") {
        LeafKind::Decimal
    } else if str_eq(ident, "IpAddr") {
        LeafKind::Inet
    } else if str_eq(ident, "Uuid") {
        LeafKind::Uuid
    } else if str_eq(ident, "Timespec") {
        LeafKind::Timespec
    } else if str_eq(ident, "PrimitiveDateTime") {
        LeafKind::DateTimePrimitive
    } else if str_eq(ident, "NaiveDateTime") {
        LeafKind::DateTimeNaive
    } else if str_eq(ident, "DateTime") {
        LeafKind::DateTimeZoned
    } else if str_eq(ident, "Vec") {
        LeafKind::List
    } else if str_eq(ident, "HashMap") {
        LeafKind::Dict
    } else if str_eq(ident, "Option") {
        LeafKind::Opt
    } else if str_eq(ident, "NonZeroI8") {
        LeafKind::SentinelInt8
    } else if str_eq(ident, "NonZeroI16") {
        LeafKind::SentinelInt16
    } else if str_eq(ident, "NonZeroI32") {
        LeafKind::SentinelInt32
    } else if str_eq(ident, "NonZeroI64") {
        LeafKind::SentinelInt64
    } else {
        LeafKind::Record
    }
}

/// Decides [`is_scalar`] on a kind value.
pub fn scalar_kind(k: LeafKind) -> (r: bool)
    ensures
        r == is_scalar(k),
{
    matches!(
        k,
        LeafKind::Blob | LeafKind::Text | LeafKind::Boolean | LeafKind::Int8 | LeafKind::Int16
            | LeafKind::Int32 | LeafKind::Int64 | LeafKind::Float32 | LeafKind::Float64
            | LeafKind::Decimal | LeafKind::Inet | LeafKind::Uuid | LeafKind::Timespec
            | LeafKind::DateTimePrimitive | LeafKind::DateTimeNaive | LeafKind::DateTimeZoned
    )
}

/// Decides [`is_sentinel`] on a kind value.
pub fn sentinel_kind(k: LeafKind) -> (r: bool)
    ensures
        r == is_sentinel(k),
{
    matches!(
        k,
        LeafKind::SentinelInt8 | LeafKind::SentinelInt16 | LeafKind::SentinelInt32
            | LeafKind::SentinelInt64
    )
}

} // verus!
