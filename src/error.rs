use vstd::prelude::*;

verus! {

/// Every failure that reaches a caller, with the identifier, type name or
/// connection string that caused it.
#[derive(Debug, PartialEq, Eq)]
pub enum Error {
    /// The identifier names no loaded pool.
    DatabaseNotLoaded(String),
    /// The connection string has no `:` or an unrecognised scheme.
    InvalidDbUrl(String),
    /// A column declared a type name outside its backend's vocabulary.
    UnsupportedDatatype(String),
    /// Whatever the underlying driver reported.
    Driver(String),
}

} // verus!
