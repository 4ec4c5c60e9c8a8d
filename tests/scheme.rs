use sql_extra::scheme::backend_for_url;
use sql_extra::{Backend, Error};

#[test]
fn each_scheme_token_selects_its_backend() {
    assert_eq!(backend_for_url("sqlite:test.db"), Ok(Backend::Sqlite));
    assert_eq!(backend_for_url("mysql://root:pw@localhost/db"), Ok(Backend::MySql));
    assert_eq!(backend_for_url("postgres://user@localhost/db"), Ok(Backend::Postgres));
    assert_eq!(backend_for_url("any:sqlite::memory:"), Ok(Backend::Any));
}

#[test]
fn empty_rest_after_scheme_is_accepted() {
    assert_eq!(backend_for_url("sqlite:"), Ok(Backend::Sqlite));
}

#[test]
fn url_without_colon_is_invalid() {
    assert_eq!(
        backend_for_url("sqlite"),
        Err(Error::InvalidDbUrl("sqlite".to_string()))
    );
    assert_eq!(backend_for_url(""), Err(Error::InvalidDbUrl(String::new())));
}

#[test]
fn unknown_scheme_is_invalid() {
    assert_eq!(
        backend_for_url("oracle://host/db"),
        Err(Error::InvalidDbUrl("oracle://host/db - No database driver enabled!".to_string()))
    );
}

#[test]
fn scheme_match_is_case_sensitive() {
    assert_eq!(
        backend_for_url("SQLite:test.db"),
        Err(Error::InvalidDbUrl("SQLite:test.db - No database driver enabled!".to_string()))
    );
}

#[test]
fn scheme_is_text_before_first_colon() {
    assert_eq!(
        backend_for_url("x:sqlite:test.db"),
        Err(Error::InvalidDbUrl("x:sqlite:test.db - No database driver enabled!".to_string()))
    );
    assert_eq!(backend_for_url("postgres:sqlite:"), Ok(Backend::Postgres));
}

#[test]
fn unknown_scheme_message_names_the_string() {
    assert_eq!(
        backend_for_url("redis://localhost:6379"),
        Err(Error::InvalidDbUrl("redis://localhost:6379 - No database driver enabled!".to_string()))
    );
    assert_eq!(
        backend_for_url("SQLITE:test.db"),
        Err(Error::InvalidDbUrl("SQLITE:test.db - No database driver enabled!".to_string()))
    );
    assert_eq!(
        backend_for_url(":memory:"),
        Err(Error::InvalidDbUrl(":memory: - No database driver enabled!".to_string()))
    );
}
