use sql_extra::row::{assemble_row, decode_row};
use sql_extra::{Backend, Error, GenericValue, RawColumn, Row};

fn col(name: &str, declared: &str, is_null: bool, typed: Option<GenericValue>) -> RawColumn {
    RawColumn { name: name.to_string(), declared: declared.to_string(), is_null, typed }
}

#[test]
fn later_duplicate_column_overwrites() {
    let row = assemble_row(vec![
        ("id".to_string(), GenericValue::Int(1)),
        ("name".to_string(), GenericValue::Text("a".to_string())),
        ("id".to_string(), GenericValue::Int(2)),
    ]);
    assert_eq!(row.len(), 2);
    assert_eq!(row.get("id"), Some(&GenericValue::Int(2)));
    assert_eq!(row.get("name"), Some(&GenericValue::Text("a".to_string())));
    assert_eq!(row.get("missing"), None);
}

#[test]
fn empty_row_has_no_columns() {
    let row = assemble_row(Vec::new());
    assert_eq!(row.len(), 0);
    assert_eq!(Row::new().len(), 0);
}

#[test]
fn decode_row_decodes_each_column() {
    let row = decode_row(
        Backend::Sqlite,
        vec![
            col("id", "INTEGER", false, Some(GenericValue::Int(42))),
            col("note", "TEXT", true, None),
            col("data", "BLOB", false, Some(GenericValue::Bytes(vec![1, 2]))),
        ],
    )
    .unwrap();
    assert_eq!(row.len(), 3);
    assert_eq!(row.get("id"), Some(&GenericValue::Int(42)));
    assert_eq!(row.get("note"), Some(&GenericValue::Null));
    assert_eq!(row.get("data"), Some(&GenericValue::Bytes(vec![1, 2])));
}

#[test]
fn decode_row_fails_on_first_unknown_type() {
    let r = decode_row(
        Backend::Postgres,
        vec![
            col("a", "INT8", false, Some(GenericValue::Int(1))),
            col("b", "POINT", false, None),
            col("c", "CIRCLE", false, None),
        ],
    );
    assert_eq!(r.err(), Some(Error::UnsupportedDatatype("POINT".to_string())));
}

#[test]
fn decode_row_null_of_unknown_type_is_null() {
    let row = decode_row(Backend::Any, vec![col("x", "POINT", true, None)]).unwrap();
    assert_eq!(row.get("x"), Some(&GenericValue::Null));
}

#[test]
fn into_columns_lists_each_name_once() {
    let mut row = Row::new();
    row.insert("a".to_string(), GenericValue::Bool(true));
    row.insert("b".to_string(), GenericValue::Int(5));
    row.insert("a".to_string(), GenericValue::Bool(false));
    let mut cols = row.into_columns();
    cols.sort_by(|x, y| x.0.cmp(&y.0));
    assert_eq!(
        cols,
        vec![("a".to_string(), GenericValue::Bool(false)), ("b".to_string(), GenericValue::Int(5))]
    );
}
