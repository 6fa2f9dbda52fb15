//! An interface that a type implements.

use vstd::prelude::*;
use crate::ident::{text_of, type_ident, type_ident_of};

verus! {

/// An interface that a type implements.
#[derive(Debug, PartialEq)]
pub enum Type {
    Interface { name: String },
}

/// The name of the interface as the schema spells it.
pub open spec fn name_of(t: Type) -> Seq<char> {
    match t {
        Type::Interface { name } => name@,
    }
}

impl Type {
    /// The name of the interface as the schema spells it.
    pub fn orig(&self) -> (r: &str)
        ensures
            r@ == name_of(*self),
    {
        match self {
            Type::Interface { name } => name.as_str(),
        }
    }

    /// The identifier of the trait that stands for the interface: the
    /// Pascal-cased name, where that is an identifier.
    pub fn ident(&self) -> (r: Option<String>)
        ensures
            text_of(r) == type_ident_of(name_of(*self)),
    {
        type_ident(self.orig())
    }
}

} // verus!
