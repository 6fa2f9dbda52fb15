//! A reference to a type in a place where the value is never missing.

use vstd::prelude::*;
use crate::ident::normal_ident;
use crate::types::nullable::{present_text, wrap_generic};

verus! {

/// A type that is never missing: a named type or a list.
#[derive(Debug, PartialEq)]
pub enum Type {
    Input { name: String },
    Object { name: String },
    Enum { name: String },
    Interface { name: String },
    Union { name: String },
    Scalar { name: String },
    List { of: Box<crate::types::nullable::Type> },
}

impl Type {
    /// Writes the Rust type that stands for this type.
    pub fn render(&self) -> (r: Option<String>)
        ensures
            crate::ident::text_of(r) == present_text(*self),
        decreases self,
    {
        match self {
            Type::List { of } => wrap_generic("Vec", of.render()),
            Type::Input { name } => normal_ident(name.as_str()),
            Type::Object { name } => normal_ident(name.as_str()),
            Type::Enum { name } => normal_ident(name.as_str()),
            Type::Interface { name } => normal_ident(name.as_str()),
            Type::Union { name } => normal_ident(name.as_str()),
            Type::Scalar { name } => normal_ident(name.as_str()),
        }
    }
}

} // verus!
