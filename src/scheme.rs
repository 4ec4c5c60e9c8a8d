use vstd::prelude::*;
use crate::error::Error;

verus! {

/// The four backends, chosen once from a connection string's scheme.
#[derive(Debug, Clone, Copy, PartialEq, Eq, Structural)]
pub enum Backend {
    Sqlite,
    MySql,
    Postgres,
    Any,
}

/// The text before the first `:` of `url`, if there is a `:` at all.
pub open spec fn scheme_of(url: Seq<char>) -> Option<Seq<char>>
    decreases url.len(),
{
    if url.len() == 0 {
        None
    } else if url[0] == ':' {
        Some(Seq::empty())
    } else {
        match scheme_of(url.drop_first()) {
            Some(t) => Some(seq![url[0]] + t),
            None => None,
        }
    }
}

/// The backend that a scheme token names.
pub open spec fn backend_of_token(t: Seq<char>) -> Option<Backend> {
    if t == "sqlite"@ {
        Some(Backend::Sqlite)
    } else if t == "mysql"@ {
        Some(Backend::MySql)
    } else if t == "postgres"@ {
        Some(Backend::Postgres)
    } else if t == "any"@ {
        Some(Backend::Any)
    } else {
        None
    }
}

/// The backend that a connection string selects.
pub open spec fn backend_of_url(url: Seq<char>) -> Option<Backend> {
    match scheme_of(url) {
        Some(t) => backend_of_token(t),
        None => None,
    }
}

pub(crate) proof fn lemma_scheme_of_split(a: Seq<char>, b: Seq<char>)
    requires
        !a.contains(':'),
    ensures
        scheme_of(a + seq![':'] + b) == Some(a),
    decreases a.len(),
{
    let s = a + seq![':'] + b;
    if a.len() == 0 {
        assert(s[0] == ':');
    } else {
        assert(a[0] != ':') by {
            assert(a.contains(a[0]) ==> a[0] != ':');
        }
        assert(s.drop_first() =~= a.drop_first() + seq![':'] + b);
        assert(!a.drop_first().contains(':')) by {
            if a.drop_first().contains(':') {
                let i = choose|i: int| 0 <= i < a.drop_first().len() && a.drop_first()[i] == ':';
                assert(a[i + 1] == ':');
            }
        }
        lemma_scheme_of_split(a.drop_first(), b);
        assert(seq![a[0]] + a.drop_first() =~= a);
    }
}

pub(crate) proof fn lemma_scheme_of_no_colon(s: Seq<char>)
    requires
        !s.contains(':'),
    ensures
        scheme_of(s) is None,
    decreases s.len(),
{
    if s.len() > 0 {
        assert(s[0] != ':') by {
            assert(s.contains(s[0]) ==> s[0] != ':');
        }
        assert(!s.drop_first().contains(':')) by {
            if s.drop_first().contains(':') {
                let i = choose|i: int| 0 <= i < s.drop_first().len() && s.drop_first()[i] == ':';
                assert(s[i + 1] == ':');
            }
        }
        lemma_scheme_of_no_colon(s.drop_first());
    }
}

/// Relies on str::split_once with a `char` pattern: it splits around the
/// first occurrence of the character, and gives None where there is none.
#[verifier::external_body]
fn split_at_colon(s: &str) -> (r: Option<(&str, &str)>)
    ensures
        match r {
            Some((a, b)) => s@ == a@ + seq![':'] + b@ && !a@.contains(':'),
            None => !s@.contains(':'),
        },
{
    s.split_once(':')
}

pub(crate) fn same_text(a: &str, b: &str) -> (r: bool)
    ensures
        r == (a@ == b@),
{
    a.to_owned() == b.to_owned()
}

/// Selects the backend from the scheme of `url`: the text before its first
/// `:`, which must be one of `sqlite`, `mysql`, `postgres` and `any`
/// (compared exactly). A string with no `:` is refused with `InvalidDbUrl`
/// carrying `url` as it is; one with an unknown scheme with `InvalidDbUrl`
/// carrying `url` followed by ` - No database driver enabled!`.
pub fn backend_for_url(url: &str) -> (r: Result<Backend, Error>)
    ensures
        match scheme_of(url@) {
            None => r matches Err(Error::InvalidDbUrl(m)) && m@ == url@,
            Some(t) => match backend_of_token(t) {
                Some(b) => r == Ok::<Backend, Error>(b),
                None => r matches Err(Error::InvalidDbUrl(m)) && m@ == url@
                    + " - No database driver enabled!"@,
            },
        },
{
    match split_at_colon(url) {
        None => {
            proof {
                lemma_scheme_of_no_colon(url@);
            }
            Err(Error::InvalidDbUrl(url.to_owned()))
        },
        Some((token, rest)) => {
            proof {
                lemma_scheme_of_split(token@, rest@);
                reveal_strlit("sqlite");
                reveal_strlit("mysql");
                reveal_strlit("postgres");
                reveal_strlit("any");
            }
            if same_text(token, "sqlite") {
                Ok(Backend::Sqlite)
            } else if same_text(token, "mysql") {
                Ok(Backend::MySql)
            } else if same_text(token, "postgres") {
                Ok(Backend::Postgres)
            } else if same_text(token, "any") {
                Ok(Backend::Any)
            } else {
                Err(Error::InvalidDbUrl(url.to_owned().concat(" - No database driver enabled!")))
            }
        },
    }
}

} // verus!
