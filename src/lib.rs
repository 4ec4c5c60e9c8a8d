//! A backend-agnostic SQL access layer: driver selection from a connection
//! string, a registry of one pool per database identifier, a uniform binding
//! policy for parameters and per-backend decoding of columns into one generic
//! value model.
use vstd::prelude::*;

pub mod error;
pub mod entries;
pub mod scheme;
pub mod value;
pub mod row;
pub mod registry;
pub mod laws;
pub mod decode;
pub mod bind;

pub use error::Error;
pub use scheme::Backend;
pub use value::GenericValue;
pub use decode::Category;
pub use bind::{BindParam, BindValue};
pub use row::{RawColumn, Row};
pub use registry::DbInstances;

verus! {

} // verus!
