use vstd::prelude::*;

verus! {

#[verifier::external_type_specification]
#[verifier::external_body]
pub struct ExNumber(serde_json::Number);

#[verifier::external_type_specification]
#[verifier::external_body]
pub struct ExJsonValue(serde_json::Value);

/// The backend-independent value that a selected column becomes.
#[derive(Debug, PartialEq)]
pub enum GenericValue {
    Null,
    Bool(bool),
    /// A signed integer column, carried exactly.
    Int(i64),
    /// An unsigned integer column, carried exactly.
    UInt(u64),
    /// A floating-point column; a value that is not finite has no JSON number
    /// and decodes as a failure.
    Float(serde_json::Number),
    Text(String),
    /// A binary column, one entry per byte.
    Bytes(Vec<u8>),
    /// A column that the driver hands over as a JSON document.
    Raw(serde_json::Value),
}

} // verus!
