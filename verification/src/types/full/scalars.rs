//! Scalar types.

use vstd::prelude::*;
use crate::shared::{Documentation, TypeName};

verus! {

/// A scalar type. Nothing is generated for it.
#[derive(Debug, PartialEq)]
pub struct Type {
    pub name: TypeName,
    pub description: Documentation,
}

} // verus!
