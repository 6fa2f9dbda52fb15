//! A type that implements an interface.

use vstd::prelude::*;
use crate::ident::{text_of, type_ident, type_ident_of};

verus! {

/// A type that implements an interface, by its kind.
#[derive(Debug, PartialEq)]
pub enum Type {
    Object { name: String },
    Interface { name: String },
}

/// The name of the type as the schema spells it, whatever its kind.
pub open spec fn name_of(t: Type) -> Seq<char> {
    match t {
        Type::Object { name } => name@,
        Type::Interface { name } => name@,
    }
}

impl Type {
    /// The name of the type as the schema spells it.
    pub fn orig(&self) -> (r: &str)
        ensures
            r@ == name_of(*self),
    {
        match self {
            Type::Object { name } => name.as_str(),
            Type::Interface { name } => name.as_str(),
        }
    }

    /// The identifier of the variant that stands for the type: the
    /// Pascal-cased name, where that is an identifier.
    pub fn ident(&self) -> (r: Option<String>)
        ensures
            text_of(r) == type_ident_of(name_of(*self)),
    {
        type_ident(self.orig())
    }
}

} // verus!
