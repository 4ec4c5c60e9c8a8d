use vstd::prelude::*;
use crate::error::Error;
use crate::scheme::{same_text, Backend};
use crate::value::GenericValue;

verus! {

/// What a declared column type is decoded as.
#[derive(Debug, Clone, Copy, PartialEq, Eq, Structural)]
pub enum Category {
    /// Character data, decoded as a string.
    Text,
    /// Single-precision floating point.
    Real,
    /// Double-precision floating point.
    Double,
    /// Signed integers of any width, decoded as 64 bits.
    Integer,
    /// Unsigned integers of any width, decoded as 64 bits.
    Unsigned,
    Boolean,
    /// Dates, times and timestamps, decoded as the driver's text.
    Temporal,
    /// Binary data, decoded as bytes.
    Blob,
    /// A JSON document.
    Json,
    /// The type of a value that is always null.
    Null,
}

/// The type names of the embedded file engine and their categories.
pub open spec fn sqlite_category(n: Seq<char>) -> Option<Category> {
    if n == "TEXT"@ {
        Some(Category::Text)
    } else if n == "REAL"@ {
        Some(Category::Double)
    } else if n == "INTEGER"@ || n == "NUMERIC"@ {
        Some(Category::Integer)
    } else if n == "BOOLEAN"@ {
        Some(Category::Boolean)
    } else if n == "DATE"@ || n == "TIME"@ || n == "DATETIME"@ {
        Some(Category::Temporal)
    } else if n == "BLOB"@ {
        Some(Category::Blob)
    } else if n == "NULL"@ {
        Some(Category::Null)
    } else {
        None
    }
}

/// The type names of the MySQL server and their categories.
pub open spec fn mysql_category(n: Seq<char>) -> Option<Category> {
    if n == "CHAR"@ || n == "VARCHAR"@ || n == "TINYTEXT"@ || n == "TEXT"@ || n == "MEDIUMTEXT"@ || n == "LONGTEXT"@ || n == "ENUM"@ {
        Some(Category::Text)
    } else if n == "FLOAT"@ {
        Some(Category::Real)
    } else if n == "DOUBLE"@ {
        Some(Category::Double)
    } else if n == "TINYINT"@ || n == "SMALLINT"@ || n == "INT"@ || n == "MEDIUMINT"@ || n == "BIGINT"@ {
        Some(Category::Integer)
    } else if n == "TINYINT UNSIGNED"@ || n == "SMALLINT UNSIGNED"@ || n == "INT UNSIGNED"@ || n == "MEDIUMINT UNSIGNED"@ || n == "BIGINT UNSIGNED"@ {
        Some(Category::Unsigned)
    } else if n == "BOOLEAN"@ {
        Some(Category::Boolean)
    } else if n == "DATE"@ || n == "TIME"@ || n == "DATETIME"@ || n == "TIMESTAMP"@ {
        Some(Category::Temporal)
    } else if n == "JSON"@ {
        Some(Category::Json)
    } else if n == "TINYBLOB"@ || n == "MEDIUMBLOB"@ || n == "BLOB"@ || n == "LONGBLOB"@ || n == "BINARY"@ || n == "VARBINARY"@ {
        Some(Category::Blob)
    } else if n == "NULL"@ {
        Some(Category::Null)
    } else {
        None
    }
}

/// The type names of the PostgreSQL server and their categories.
pub open spec fn postgres_category(n: Seq<char>) -> Option<Category> {
    if n == "CHAR"@ || n == "VARCHAR"@ || n == "TEXT"@ || n == "NAME"@ {
        Some(Category::Text)
    } else if n == "FLOAT4"@ {
        Some(Category::Real)
    } else if n == "FLOAT8"@ {
        Some(Category::Double)
    } else if n == "INT2"@ || n == "INT4"@ || n == "INT8"@ {
        Some(Category::Integer)
    } else if n == "BOOL"@ {
        Some(Category::Boolean)
    } else if n == "DATE"@ || n == "TIME"@ || n == "TIMESTAMP"@ || n == "TIMESTAMPTZ"@ {
        Some(Category::Temporal)
    } else if n == "JSON"@ || n == "JSONB"@ {
        Some(Category::Json)
    } else if n == "BYTEA"@ {
        Some(Category::Blob)
    } else if n == "VOID"@ {
        Some(Category::Null)
    } else {
        None
    }
}

/// The type names of the generic driver and their categories.
/// `INTEGER` is listed among the integers because it is the name that the
/// generic driver reports for a 32-bit integer column.
pub open spec fn any_category(n: Seq<char>) -> Option<Category> {
    if n == "CHAR"@ || n == "VARCHAR"@ || n == "TINYTEXT"@ || n == "TEXT"@ || n == "MEDIUMTEXT"@ || n == "LONGTEXT"@ || n == "ENUM"@ {
        Some(Category::Text)
    } else if n == "FLOAT"@ || n == "REAL"@ {
        Some(Category::Real)
    } else if n == "DOUBLE"@ {
        Some(Category::Double)
    } else if n == "TINYINT"@ || n == "SMALLINT"@ || n == "INT"@ || n == "INTEGER"@ || n == "MEDIUMINT"@ || n == "BIGINT"@ {
        Some(Category::Integer)
    } else if n == "BOOLEAN"@ {
        Some(Category::Boolean)
    } else if n == "DATE"@ || n == "TIME"@ || n == "DATETIME"@ || n == "TIMESTAMP"@ {
        Some(Category::Temporal)
    } else if n == "TINYBLOB"@ || n == "MEDIUMBLOB"@ || n == "BLOB"@ || n == "LONGBLOB"@ {
        Some(Category::Blob)
    } else if n == "NULL"@ {
        Some(Category::Null)
    } else {
        None
    }
}

/// The decode table of a backend: None for a type name that it does not know.
pub open spec fn category_spec(backend: Backend, n: Seq<char>) -> Option<Category> {
    match backend {
        Backend::Sqlite => sqlite_category(n),
        Backend::MySql => mysql_category(n),
        Backend::Postgres => postgres_category(n),
        Backend::Any => any_category(n),
    }
}

/// Whether `v` has the shape that a driver's decode of category `c` gives.
pub open spec fn fits(c: Category, v: GenericValue) -> bool {
    match c {
        Category::Text | Category::Temporal => v is Text,
        Category::Real | Category::Double => v is Float,
        Category::Integer => v is Int,
        Category::Unsigned => v is UInt,
        Category::Boolean => v is Bool,
        Category::Blob => v is Bytes,
        Category::Json => v is Raw,
        Category::Null => v is Null,
    }
}

/// The value of a non-null column of category `c`, given what the driver's
/// typed decode gave: a failed or ill-shaped decode degrades to Null.
pub open spec fn decoded(c: Category, typed: Option<GenericValue>) -> GenericValue {
    match typed {
        Some(v) => if fits(c, v) { v } else { GenericValue::Null },
        None => GenericValue::Null,
    }
}

fn sqlite_category_of(n: &str) -> (r: Option<Category>)
    ensures
        r == sqlite_category(n@),
{
    if same_text(n, "TEXT") {
        Some(Category::Text)
    } else if same_text(n, "REAL") {
        Some(Category::Double)
    } else if same_text(n, "INTEGER") || same_text(n, "NUMERIC") {
        Some(Category::Integer)
    } else if same_text(n, "BOOLEAN") {
        Some(Category::Boolean)
    } else if same_text(n, "DATE") || same_text(n, "TIME") || same_text(n, "DATETIME") {
        Some(Category::Temporal)
    } else if same_text(n, "BLOB") {
        Some(Category::Blob)
    } else if same_text(n, "NULL") {
        Some(Category::Null)
    } else {
        None
    }
}

fn mysql_category_of(n: &str) -> (r: Option<Category>)
    ensures
        r == mysql_category(n@),
{
    if same_text(n, "CHAR") || same_text(n, "VARCHAR") || same_text(n, "TINYTEXT") || same_text(n, "TEXT") || same_text(n, "MEDIUMTEXT") || same_text(n, "LONGTEXT") || same_text(n, "ENUM") {
        Some(Category::Text)
    } else if same_text(n, "FLOAT") {
        Some(Category::Real)
    } else if same_text(n, "DOUBLE") {
        Some(Category::Double)
    } else if same_text(n, "TINYINT") || same_text(n, "SMALLINT") || same_text(n, "INT") || same_text(n, "MEDIUMINT") || same_text(n, "BIGINT") {
        Some(Category::Integer)
    } else if same_text(n, "TINYINT UNSIGNED") || same_text(n, "SMALLINT UNSIGNED") || same_text(n, "INT UNSIGNED") || same_text(n, "MEDIUMINT UNSIGNED") || same_text(n, "BIGINT UNSIGNED") {
        Some(Category::Unsigned)
    } else if same_text(n, "BOOLEAN") {
        Some(Category::Boolean)
    } else if same_text(n, "DATE") || same_text(n, "TIME") || same_text(n, "DATETIME") || same_text(n, "TIMESTAMP") {
        Some(Category::Temporal)
    } else if same_text(n, "JSON") {
        Some(Category::Json)
    } else if same_text(n, "TINYBLOB") || same_text(n, "MEDIUMBLOB") || same_text(n, "BLOB") || same_text(n, "LONGBLOB") || same_text(n, "BINARY") || same_text(n, "VARBINARY") {
        Some(Category::Blob)
    } else if same_text(n, "NULL") {
        Some(Category::Null)
    } else {
        None
    }
}

fn postgres_category_of(n: &str) -> (r: Option<Category>)
    ensures
        r == postgres_category(n@),
{
    if same_text(n, "CHAR") || same_text(n, "VARCHAR") || same_text(n, "TEXT") || same_text(n, "NAME") {
        Some(Category::Text)
    } else if same_text(n, "FLOAT4") {
        Some(Category::Real)
    } else if same_text(n, "FLOAT8") {
        Some(Category::Double)
    } else if same_text(n, "INT2") || same_text(n, "INT4") || same_text(n, "INT8") {
        Some(Category::Integer)
    } else if same_text(n, "BOOL") {
        Some(Category::Boolean)
    } else if same_text(n, "DATE") || same_text(n, "TIME") || same_text(n, "TIMESTAMP") || same_text(n, "TIMESTAMPTZ") {
        Some(Category::Temporal)
    } else if same_text(n, "JSON") || same_text(n, "JSONB") {
        Some(Category::Json)
    } else if same_text(n, "BYTEA") {
        Some(Category::Blob)
    } else if same_text(n, "VOID") {
        Some(Category::Null)
    } else {
        None
    }
}

fn any_category_of(n: &str) -> (r: Option<Category>)
    ensures
        r == any_category(n@),
{
    if same_text(n, "CHAR") || same_text(n, "VARCHAR") || same_text(n, "TINYTEXT") || same_text(n, "TEXT") || same_text(n, "MEDIUMTEXT") || same_text(n, "LONGTEXT") || same_text(n, "ENUM") {
        Some(Category::Text)
    } else if same_text(n, "FLOAT") || same_text(n, "REAL") {
        Some(Category::Real)
    } else if same_text(n, "DOUBLE") {
        Some(Category::Double)
    } else if same_text(n, "TINYINT") || same_text(n, "SMALLINT") || same_text(n, "INT") || same_text(n, "INTEGER") || same_text(n, "MEDIUMINT") || same_text(n, "BIGINT") {
        Some(Category::Integer)
    } else if same_text(n, "BOOLEAN") {
        Some(Category::Boolean)
    } else if same_text(n, "DATE") || same_text(n, "TIME") || same_text(n, "DATETIME") || same_text(n, "TIMESTAMP") {
        Some(Category::Temporal)
    } else if same_text(n, "TINYBLOB") || same_text(n, "MEDIUMBLOB") || same_text(n, "BLOB") || same_text(n, "LONGBLOB") {
        Some(Category::Blob)
    } else if same_text(n, "NULL") {
        Some(Category::Null)
    } else {
        None
    }
}

/// Looks a declared type name up in the backend's decode table. The match is
/// exact and case-sensitive.
pub fn category_of(backend: Backend, declared: &str) -> (r: Option<Category>)
    ensures
        r == category_spec(backend, declared@),
{
    match backend {
        Backend::Sqlite => sqlite_category_of(declared),
        Backend::MySql => mysql_category_of(declared),
        Backend::Postgres => postgres_category_of(declared),
        Backend::Any => any_category_of(declared),
    }
}

/// Turns a driver's typed decode of a non-null column of category `c` into
/// its generic value; a failed (None) or ill-shaped decode becomes Null.
pub fn finish_decode(c: Category, typed: Option<GenericValue>) -> (r: GenericValue)
    ensures
        r == decoded(c, typed),
{
    match typed {
        Some(v) => {
            let ok = match c {
                Category::Text | Category::Temporal => matches!(v, GenericValue::Text(_)),
                Category::Real | Category::Double => matches!(v, GenericValue::Float(_)),
                Category::Integer => matches!(v, GenericValue::Int(_)),
                Category::Unsigned => matches!(v, GenericValue::UInt(_)),
                Category::Boolean => matches!(v, GenericValue::Bool(_)),
                Category::Blob => matches!(v, GenericValue::Bytes(_)),
                Category::Json => matches!(v, GenericValue::Raw(_)),
                Category::Null => matches!(v, GenericValue::Null),
            };
            if ok {
                v
            } else {
                GenericValue::Null
            }
        },
        None => GenericValue::Null,
    }
}

/// Decodes one column of a `backend` row. A null column is Null whatever
/// its declared type. Otherwise the type name is looked up in the backend's
/// table: an unknown one fails with `UnsupportedDatatype`, a known one takes
/// the driver's typed decode `typed` for its category, where a failed decode
/// degrades to Null.
pub fn to_json(backend: Backend, declared: &str, is_null: bool, typed: Option<GenericValue>) -> (r:
    Result<GenericValue, Error>)
    ensures
        is_null ==> r == Ok::<GenericValue, Error>(GenericValue::Null),
        !is_null ==> match category_spec(backend, declared@) {
            Some(c) => r == Ok::<GenericValue, Error>(decoded(c, typed)),
            None => r matches Err(Error::UnsupportedDatatype(m)) && m@ == declared@,
        },
{
    if is_null {
        return Ok(GenericValue::Null);
    }
    match category_of(backend, declared) {
        Some(c) => Ok(finish_decode(c, typed)),
        None => Err(Error::UnsupportedDatatype(declared.to_owned())),
    }
}

} // verus!
