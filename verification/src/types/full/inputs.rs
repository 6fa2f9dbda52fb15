//! Input object types.

use vstd::prelude::*;
use crate::shared::{Documentation, TypeName};
use crate::Input;

verus! {

/// An input object type: a struct with a field for each input field.
#[derive(Debug, PartialEq)]
pub struct Type {
    pub name: TypeName,
    pub description: Documentation,
    pub fields: Vec<Input>,
}

} // verus!
