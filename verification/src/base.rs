//! The client runtime: navigation over a remote object graph, one field at a
//! time, with the query text and the response walk derived from the path
//! that led to the current item.

pub mod decode;
pub mod error;
pub mod json;
pub mod laws;
pub mod path;
pub mod query;
pub mod response;
pub mod union;
pub mod wire;

pub use error::{check_status, Error, GqlError, HttpError};
pub use json::Json;
pub use path::{target, Canonicalizable, Decodable, Path, PathView, Queryable};
pub use query::compose;
pub use response::extract;
pub use union::{read_typename, select_variant, union_fragment, Union};
pub use wire::{Fragment, Index, IndexView, Link, LinkView, Selection};
