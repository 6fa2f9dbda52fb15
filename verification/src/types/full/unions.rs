//! Union types.

use vstd::prelude::*;
use crate::shared::{Documentation, TypeName};

verus! {

/// A union type: an enum with a variant for each possible type.
#[derive(Debug, PartialEq)]
pub struct Type {
    pub name: TypeName,
    pub description: Documentation,
    pub possible: Vec<crate::types::named::Type>,
}

} // verus!
