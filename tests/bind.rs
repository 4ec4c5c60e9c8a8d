use sql_extra::bind::{bind_param, bind_params};
use sql_extra::{Backend, BindParam, BindValue, Error};

#[test]
fn scalars_bind_on_every_backend() {
    for b in [Backend::Sqlite, Backend::MySql, Backend::Postgres, Backend::Any] {
        assert_eq!(bind_param(b, BindValue::Null), Ok(BindParam::Null));
        assert_eq!(bind_param(b, BindValue::Text("x".to_string())), Ok(BindParam::Text("x".to_string())));
        let n = serde_json::Number::from(3);
        assert_eq!(bind_param(b, BindValue::Number(n.clone())), Ok(BindParam::Double(n)));
    }
}

#[test]
fn other_shapes_bind_as_json_except_on_generic_driver() {
    let j = serde_json::Value::Array(vec![serde_json::Value::Bool(true)]);
    assert_eq!(bind_param(Backend::Postgres, BindValue::Other(j.clone())), Ok(BindParam::Json(j.clone())));
    assert!(matches!(bind_param(Backend::Any, BindValue::Other(j)), Err(Error::Driver(_))));
}

#[test]
fn bind_params_keeps_order() {
    let r = bind_params(
        Backend::Sqlite,
        vec![BindValue::Text("a".to_string()), BindValue::Null, BindValue::Other(serde_json::Value::Bool(false))],
    );
    assert_eq!(
        r,
        Ok(vec![BindParam::Text("a".to_string()), BindParam::Null, BindParam::Json(serde_json::Value::Bool(false))])
    );
}

#[test]
fn bind_params_refuses_json_on_generic_driver() {
    let r = bind_params(Backend::Any, vec![BindValue::Null, BindValue::Other(serde_json::Value::Bool(false))]);
    assert!(matches!(r, Err(Error::Driver(_))));
    assert_eq!(bind_params(Backend::Any, Vec::new()), Ok(Vec::new()));
}
