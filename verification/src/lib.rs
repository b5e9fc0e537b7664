//! Type-directed planning of decode and encode procedures for database
//! records.
//!
//! A caller declares a record as an ordered list of `(name, type expression)`
//! fields. From that declaration alone the library derives, ahead of any data
//! flowing, how a value of each field's shape is pulled out of a raw row or
//! composite value (a recursive decode plan) and how a field value is framed
//! for an outbound statement (a shallow encode plan), and emits the insert
//! statement template for the record.

pub mod decode;
pub mod emit;
pub mod encode;
pub mod kind;
pub mod laws;
pub mod plan;
pub mod schema;
pub mod text;
