//! What the parts of a schema description share: documentation, names and
//! deprecation.

use vstd::prelude::*;
use crate::ident::{item_ident, item_ident_of, text_of, type_ident, type_ident_of};

verus! {

/// The description of a schema item, where it has one.
#[derive(Debug, PartialEq)]
pub struct Documentation(pub Option<String>);

impl Default for Documentation {
    fn default() -> (r: Self)
        ensures
            r.0.is_none(),
    {
        Documentation(None)
    }
}

impl Documentation {
    /// The text of the documentation attribute of the generated item:
    /// the description, where there is one.
    pub fn text(&self) -> (r: Option<&String>)
        ensures
            match self.0 {
                Some(description) => r == Some(&description),
                None => r.is_none(),
            },
    {
        match &self.0 {
            Some(description) => Some(description),
            None => None,
        }
    }
}

/// The name of a type of the schema, as the schema spells it.
#[derive(Debug, PartialEq)]
pub struct TypeName(pub String);

impl From<String> for TypeName {
    fn from(value: String) -> (r: Self) {
        TypeName(value)
    }
}

impl vstd::std_specs::convert::FromSpecImpl<String> for TypeName {
    open spec fn obeys_from_spec() -> bool {
        true
    }

    open spec fn from_spec(value: String) -> Self {
        TypeName(value)
    }
}

impl TypeName {
    /// The name as the schema spells it.
    pub fn as_str(&self) -> (r: &str)
        ensures
            r@ == self.0@,
    {
        self.0.as_str()
    }

    /// The identifier of the generated type: the Pascal-cased name, where
    /// that is an identifier.
    pub fn ident(&self) -> (r: Option<String>)
        ensures
            text_of(r) == type_ident_of(self.0@),
    {
        type_ident(self.0.as_str())
    }
}

/// The name of a field, an argument or a directive of the schema, as the
/// schema spells it.
#[derive(Debug, PartialEq)]
pub struct ItemName(pub String);

impl From<String> for ItemName {
    fn from(value: String) -> (r: Self) {
        ItemName(value)
    }
}

impl vstd::std_specs::convert::FromSpecImpl<String> for ItemName {
    open spec fn obeys_from_spec() -> bool {
        true
    }

    open spec fn from_spec(value: String) -> Self {
        ItemName(value)
    }
}

impl ItemName {
    /// The name as the schema spells it.
    pub fn as_str(&self) -> (r: &str)
        ensures
            r@ == self.0@,
    {
        self.0.as_str()
    }

    /// The identifier of the generated item: the snake-cased name, raw
    /// where the name is a keyword, where either is an identifier.
    pub fn ident(&self) -> (r: Option<String>)
        ensures
            text_of(r) == item_ident_of(self.0@),
    {
        item_ident(self.0.as_str())
    }
}

/// Whether a schema item is deprecated, and why.
#[derive(Debug, PartialEq)]
pub struct Deprecated {
    pub is_deprecated: Option<bool>,
    pub deprecation_reason: Option<String>,
}

/// The deprecation attribute of a generated item.
#[derive(Debug, PartialEq)]
pub enum Deprecation {
    /// No attribute.
    Absent,
    /// The bare attribute.
    Bare,
    /// The attribute with a reason.
    Reason(String),
}

/// The deprecation attribute that an item gets: none unless the schema marks
/// the item deprecated, else the attribute with the reason where the schema
/// gives one and the bare attribute where it gives none.
pub open spec fn deprecation(d: Deprecated) -> Deprecation {
    match d.is_deprecated {
        Some(true) => match d.deprecation_reason {
            Some(reason) => Deprecation::Reason(reason),
            None => Deprecation::Bare,
        },
        _ => Deprecation::Absent,
    }
}

impl Deprecated {
    /// The deprecation attribute of the generated item.
    pub fn attribute(&self) -> (r: Deprecation)
        ensures
            r == deprecation(*self),
    {
        match self.is_deprecated {
            Some(true) => match &self.deprecation_reason {
                Some(reason) => Deprecation::Reason(reason.clone()),
                None => Deprecation::Bare,
            },
            _ => Deprecation::Absent,
        }
    }
}

} // verus!
