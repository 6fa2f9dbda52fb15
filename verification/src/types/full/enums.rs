//! Enum types.

use vstd::prelude::*;
use crate::shared::{Deprecated, Documentation, TypeName};

verus! {

/// A value of an enum type.
#[derive(Debug, PartialEq)]
pub struct Value {
    pub name: TypeName,
    pub description: Documentation,
    pub deprecated: Deprecated,
}

/// An enum type: an enum with a variant for each value.
#[derive(Debug, PartialEq)]
pub struct Type {
    pub name: TypeName,
    pub description: Documentation,
    pub values: Vec<Value>,
}

} // verus!
