use vstd::prelude::*;
use crate::error::Error;
use crate::scheme::Backend;

verus! {

/// A positional parameter of `select`, by the shape of the JSON value given.
#[derive(Debug, PartialEq)]
pub enum BindValue {
    Null,
    Text(String),
    Number(serde_json::Number),
    /// Any other JSON shape: a boolean, an array or an object.
    Other(serde_json::Value),
}

/// How a parameter is bound on the driver.
#[derive(Debug, PartialEq)]
pub enum BindParam {
    /// The driver's null.
    Null,
    /// A string parameter.
    Text(String),
    /// A double-precision parameter, converted from the JSON number.
    Double(serde_json::Number),
    /// The JSON value itself, as the driver encodes it.
    Json(serde_json::Value),
}

/// Whether the backend takes JSON values as parameters.
pub open spec fn binds_json(backend: Backend) -> bool {
    backend != Backend::Any
}

/// The binding policy: null binds as null, a string as a string, a number as
/// a double, and any other shape as a JSON parameter on the backends that
/// have one; the generic driver has none and refuses it.
pub fn bind_param(backend: Backend, v: BindValue) -> (r: Result<BindParam, Error>)
    ensures
        match v {
            BindValue::Null => r == Ok::<BindParam, Error>(BindParam::Null),
            BindValue::Text(s) => r == Ok::<BindParam, Error>(BindParam::Text(s)),
            BindValue::Number(n) => r == Ok::<BindParam, Error>(BindParam::Double(n)),
            BindValue::Other(j) => if binds_json(backend) {
                r == Ok::<BindParam, Error>(BindParam::Json(j))
            } else {
                r matches Err(Error::Driver(_))
            },
        },
{
    match v {
        BindValue::Null => Ok(BindParam::Null),
        BindValue::Text(s) => Ok(BindParam::Text(s)),
        BindValue::Number(n) => Ok(BindParam::Double(n)),
        BindValue::Other(j) => {
            if backend == Backend::Any {
                Err(Error::Driver("the generic driver takes no JSON parameters".to_owned()))
            } else {
                Ok(BindParam::Json(j))
            }
        },
    }
}

/// Applies the binding policy to each parameter in order, failing on the
/// first one that the backend refuses.
#[verifier::loop_isolation(false)]
pub fn bind_params(backend: Backend, vs: Vec<BindValue>) -> (r: Result<Vec<BindParam>, Error>)
    ensures
        (forall|i: int| 0 <= i < vs@.len() ==> bindable(backend, #[trigger] vs@[i])) ==> (r matches Ok(
            ps,
        ) && ps@.len() == vs@.len() && forall|i: int|
            0 <= i < vs@.len() ==> #[trigger] ps@[i] == bound(vs@[i])),
        !(forall|i: int| 0 <= i < vs@.len() ==> bindable(backend, #[trigger] vs@[i])) ==> r matches Err(
            Error::Driver(_),
        ),
{
    let ghost all = vs@;
    let n = vs.len();
    let mut rest = vs;
    let mut out: Vec<BindParam> = Vec::new();
    let mut k: usize = 0;
    while rest.len() > 0
        invariant
            k + rest@.len() == all.len(),
            all.len() == n,
            rest@ == all.skip(k as int),
            out@.len() == k,
            forall|j: int| 0 <= j < k ==> bindable(backend, #[trigger] all[j]),
            forall|j: int| 0 <= j < k ==> #[trigger] out@[j] == bound(all[j]),
        decreases rest@.len(),
    {
        let v = rest.remove(0);
        proof {
            assert(all[k as int] == v);
        }
        match bind_param(backend, v) {
            Ok(p) => out.push(p),
            Err(e) => {
                proof {
                    assert(!bindable(backend, all[k as int]));
                }
                return Err(e);
            },
        }
        k = k + 1;
        proof {
            assert(rest@ =~= all.skip(k as int));
        }
    }
    Ok(out)
}

/// Whether the backend takes the parameter.
pub open spec fn bindable(backend: Backend, v: BindValue) -> bool {
    !(v is Other) || binds_json(backend)
}

/// The parameter that a bindable value becomes.
pub open spec fn bound(v: BindValue) -> BindParam {
    match v {
        BindValue::Null => BindParam::Null,
        BindValue::Text(s) => BindParam::Text(s),
        BindValue::Number(n) => BindParam::Double(n),
        BindValue::Other(j) => BindParam::Json(j),
    }
}

} // verus!
