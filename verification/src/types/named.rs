//! A reference to a type that has a name.

use vstd::prelude::*;
use crate::ident::{normal_ident, normal_ident_of};

verus! {

/// A named type, by its kind.
#[derive(Debug, PartialEq)]
pub enum Type {
    Input { name: String },
    Object { name: String },
    Enum { name: String },
    Interface { name: String },
    Union { name: String },
    Scalar { name: String },
}

/// The name of the type as the schema spells it, whatever its kind.
pub open spec fn name_of(t: Type) -> Seq<char> {
    match t {
        Type::Input { name } => name@,
        Type::Object { name } => name@,
        Type::Enum { name } => name@,
        Type::Interface { name } => name@,
        Type::Union { name } => name@,
        Type::Scalar { name } => name@,
    }
}

impl Type {
    /// The name of the type as the schema spells it.
    pub fn orig(&self) -> (r: &str)
        ensures
            r@ == name_of(*self),
    {
        match self {
            Type::Input { name } => name.as_str(),
            Type::Object { name } => name.as_str(),
            Type::Enum { name } => name.as_str(),
            Type::Interface { name } => name.as_str(),
            Type::Union { name } => name.as_str(),
            Type::Scalar { name } => name.as_str(),
        }
    }

    /// The identifier of the generated type: the name brought to one
    /// spelling, where that is an identifier.
    pub fn ident(&self) -> (r: Option<String>)
        ensures
            crate::ident::text_of(r) == normal_ident_of(name_of(*self)),
    {
        normal_ident(self.orig())
    }
}

} // verus!
