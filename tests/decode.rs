use sql_extra::decode::{category_of, finish_decode, to_json};
use sql_extra::{Backend, Category, Error, GenericValue};

const ALL: [Backend; 4] = [Backend::Sqlite, Backend::MySql, Backend::Postgres, Backend::Any];

#[test]
fn null_column_is_null_whatever_its_type() {
    for b in ALL {
        for t in ["TEXT", "INTEGER", "BLOB", "NO_SUCH_TYPE", ""] {
            assert_eq!(to_json(b, t, true, Some(GenericValue::Int(7))), Ok(GenericValue::Null));
            assert_eq!(to_json(b, t, true, None), Ok(GenericValue::Null));
        }
    }
}

#[test]
fn integer_forty_two_decodes_exactly_on_every_backend() {
    let names = [
        (Backend::Sqlite, "INTEGER"),
        (Backend::MySql, "BIGINT"),
        (Backend::Postgres, "INT4"),
        (Backend::Any, "INT"),
    ];
    for (b, t) in names {
        assert_eq!(category_of(b, t), Some(Category::Integer));
        assert_eq!(to_json(b, t, false, Some(GenericValue::Int(42))), Ok(GenericValue::Int(42)));
    }
}

#[test]
fn float_forty_two_decodes_exactly_on_every_backend() {
    let names = [
        (Backend::Sqlite, "REAL"),
        (Backend::MySql, "DOUBLE"),
        (Backend::Postgres, "FLOAT8"),
        (Backend::Any, "DOUBLE"),
    ];
    for (b, t) in names {
        let n = serde_json::Number::from_f64(42.0).unwrap();
        let got = to_json(b, t, false, Some(GenericValue::Float(n))).unwrap();
        match got {
            GenericValue::Float(x) => assert_eq!(x.as_f64(), Some(42.0)),
            other => panic!("unexpected {:?}", other),
        }
    }
}

#[test]
fn unsigned_decodes_on_mysql() {
    assert_eq!(category_of(Backend::MySql, "BIGINT UNSIGNED"), Some(Category::Unsigned));
    assert_eq!(
        to_json(Backend::MySql, "INT UNSIGNED", false, Some(GenericValue::UInt(42))),
        Ok(GenericValue::UInt(42))
    );
}

#[test]
fn unknown_type_is_unsupported() {
    assert_eq!(
        to_json(Backend::Sqlite, "GEOMETRY", false, None),
        Err(Error::UnsupportedDatatype("GEOMETRY".to_string()))
    );
    assert_eq!(
        to_json(Backend::Postgres, "int4", false, Some(GenericValue::Int(1))),
        Err(Error::UnsupportedDatatype("int4".to_string()))
    );
    assert_eq!(
        to_json(Backend::Any, "JSON", false, None),
        Err(Error::UnsupportedDatatype("JSON".to_string()))
    );
}

#[test]
fn failed_typed_decode_degrades_to_null() {
    assert_eq!(to_json(Backend::MySql, "VARCHAR", false, None), Ok(GenericValue::Null));
    assert_eq!(to_json(Backend::Any, "BLOB", false, None), Ok(GenericValue::Null));
}

#[test]
fn ill_shaped_typed_decode_degrades_to_null() {
    assert_eq!(
        to_json(Backend::Sqlite, "TEXT", false, Some(GenericValue::Int(3))),
        Ok(GenericValue::Null)
    );
    assert_eq!(finish_decode(Category::Boolean, Some(GenericValue::Text("t".to_string()))), GenericValue::Null);
}

#[test]
fn categories_keep_their_values() {
    assert_eq!(
        to_json(Backend::Postgres, "TEXT", false, Some(GenericValue::Text("hi".to_string()))),
        Ok(GenericValue::Text("hi".to_string()))
    );
    assert_eq!(
        to_json(Backend::Postgres, "BOOL", false, Some(GenericValue::Bool(true))),
        Ok(GenericValue::Bool(true))
    );
    assert_eq!(
        to_json(Backend::Sqlite, "DATETIME", false, Some(GenericValue::Text("2024-01-02 03:04:05".to_string()))),
        Ok(GenericValue::Text("2024-01-02 03:04:05".to_string()))
    );
    assert_eq!(
        to_json(Backend::Sqlite, "BLOB", false, Some(GenericValue::Bytes(vec![0, 7, 255]))),
        Ok(GenericValue::Bytes(vec![0, 7, 255]))
    );
    assert_eq!(
        to_json(Backend::MySql, "JSON", false, Some(GenericValue::Raw(serde_json::Value::Bool(false)))),
        Ok(GenericValue::Raw(serde_json::Value::Bool(false)))
    );
}

#[test]
fn null_category_is_null_even_with_a_value() {
    assert_eq!(to_json(Backend::Sqlite, "NULL", false, Some(GenericValue::Int(1))), Ok(GenericValue::Null));
    assert_eq!(to_json(Backend::Postgres, "VOID", false, None), Ok(GenericValue::Null));
}

#[test]
fn tables_differ_between_backends() {
    assert_eq!(category_of(Backend::Postgres, "BYTEA"), Some(Category::Blob));
    assert_eq!(category_of(Backend::Sqlite, "BYTEA"), None);
    assert_eq!(category_of(Backend::Any, "FLOAT"), Some(Category::Real));
    assert_eq!(category_of(Backend::Postgres, "FLOAT4"), Some(Category::Real));
    assert_eq!(category_of(Backend::MySql, "TIMESTAMP"), Some(Category::Temporal));
    assert_eq!(category_of(Backend::Sqlite, "TIMESTAMP"), None);
    assert_eq!(category_of(Backend::Any, "ENUM"), Some(Category::Text));
}

#[test]
fn type_names_match_case_sensitively() {
    assert_eq!(
        to_json(Backend::Any, "int", false, Some(GenericValue::Int(1))),
        Err(Error::UnsupportedDatatype("int".to_string()))
    );
    assert_eq!(to_json(Backend::Any, "INT", false, Some(GenericValue::Int(1))), Ok(GenericValue::Int(1)));
}
