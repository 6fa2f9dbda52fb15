//! A reference to a type in a place where the value may be missing.

use vstd::prelude::*;
use vstd::string::*;
use crate::ident::{normal_ident, normal_ident_of};

verus! {

/// A type that may be missing: a named type, a list, or a type that is
/// marked as never missing.
#[derive(Debug, PartialEq)]
#[allow(inconsistent_fields)]
pub enum Type {
    Input { name: String },
    Object { name: String },
    Enum { name: String },
    Interface { name: String },
    Union { name: String },
    Scalar { name: String },
    List { of: Box<Type> },
    NonNull { of: Box<crate::types::list::Type> },
}

/// `<outer><<inner>>`: a generic type around its argument.
pub open spec fn generic(outer: Seq<char>, inner: Seq<char>) -> Seq<char> {
    outer + "<"@ + inner + ">"@
}

/// The generic type around the argument, where there is an argument.
pub open spec fn generic_of(outer: Seq<char>, inner: Option<Seq<char>>) -> Option<Seq<char>> {
    match inner {
        Some(text) => Some(generic(outer, text)),
        None => None,
    }
}

/// The Rust type that stands for a type that may be missing: a list is a
/// `Vec` of what it holds, a type that is never missing is that type bare,
/// and a named type is an `Option` of its identifier. There is none where a
/// name has no identifier.
pub open spec fn type_text(t: Type) -> Option<Seq<char>>
    decreases t,
{
    match t {
        Type::List { of } => generic_of("Vec"@, type_text(*of)),
        Type::NonNull { of } => present_text(*of),
        Type::Input { name } => generic_of("Option"@, normal_ident_of(name@)),
        Type::Object { name } => generic_of("Option"@, normal_ident_of(name@)),
        Type::Enum { name } => generic_of("Option"@, normal_ident_of(name@)),
        Type::Interface { name } => generic_of("Option"@, normal_ident_of(name@)),
        Type::Union { name } => generic_of("Option"@, normal_ident_of(name@)),
        Type::Scalar { name } => generic_of("Option"@, normal_ident_of(name@)),
    }
}

/// The Rust type that stands for a type that is never missing: a list is a
/// `Vec` of what it holds, a named type is its identifier.
pub open spec fn present_text(t: crate::types::list::Type) -> Option<Seq<char>>
    decreases t,
{
    match t {
        crate::types::list::Type::List { of } => generic_of("Vec"@, type_text(*of)),
        crate::types::list::Type::Input { name } => normal_ident_of(name@),
        crate::types::list::Type::Object { name } => normal_ident_of(name@),
        crate::types::list::Type::Enum { name } => normal_ident_of(name@),
        crate::types::list::Type::Interface { name } => normal_ident_of(name@),
        crate::types::list::Type::Union { name } => normal_ident_of(name@),
        crate::types::list::Type::Scalar { name } => normal_ident_of(name@),
    }
}

/// Writes a generic type around its argument, where there is an argument.
pub fn wrap_generic(outer: &str, inner: Option<String>) -> (r: Option<String>)
    ensures
        crate::ident::text_of(r) == generic_of(outer@, crate::ident::text_of(inner)),
{
    match inner {
        Some(text) => {
            let mut out = String::from_str(outer);
            out.append("<");
            out.append(text.as_str());
            out.append(">");
            Some(out)
        },
        None => None,
    }
}

impl Type {
    /// Writes the Rust type that stands for this type.
    pub fn render(&self) -> (r: Option<String>)
        ensures
            crate::ident::text_of(r) == type_text(*self),
        decreases self,
    {
        match self {
            Type::List { of } => wrap_generic("Vec", of.render()),
            Type::NonNull { of } => of.render(),
            Type::Input { name } => wrap_generic("Option", normal_ident(name.as_str())),
            Type::Object { name } => wrap_generic("Option", normal_ident(name.as_str())),
            Type::Enum { name } => wrap_generic("Option", normal_ident(name.as_str())),
            Type::Interface { name } => wrap_generic("Option", normal_ident(name.as_str())),
            Type::Union { name } => wrap_generic("Option", normal_ident(name.as_str())),
            Type::Scalar { name } => wrap_generic("Option", normal_ident(name.as_str())),
        }
    }
}

} // verus!
