//! Interface types.

use vstd::prelude::*;
use crate::types::interface::{child, parent};

verus! {

/// An interface type: a trait with a method for each field.
#[derive(Debug, PartialEq)]
pub struct Type {
    pub object: super::objects::Type,
    pub possible: Vec<child::Type>,
}

/// The interfaces that the generated trait extends: those that the schema
/// lists, where it lists any.
pub open spec fn supertraits_of(t: Type) -> Option<Vec<parent::Type>> {
    match t.object.interfaces {
        Some(traits) => if traits@.len() > 0 {
            Some(traits)
        } else {
            None
        },
        None => None,
    }
}

impl Type {
    /// The interfaces that the generated trait extends.
    pub fn supertraits(&self) -> (r: Option<&Vec<parent::Type>>)
        ensures
            match supertraits_of(*self) {
                Some(traits) => r == Some(&traits),
                None => r is None,
            },
    {
        match &self.object.interfaces {
            Some(traits) => if traits.len() > 0 {
                Some(traits)
            } else {
                None
            },
            None => None,
        }
    }
}

} // verus!
