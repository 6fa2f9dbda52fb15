//! A typed client runtime for graph-shaped query APIs, together with the
//! description of a remote schema from which client types are generated.
//!
//! The [`base`] module holds the runtime: the wire document model, the query
//! composer, the response extractor and the path handle with its decode
//! strategies. The rest describes a schema: this file holds the document as
//! a whole, [`shared`] what its parts have in common, [`types`] the types
//! that it refers to and defines, and [`ident`] how its names become
//! identifiers of the generated code.

use vstd::prelude::*;

pub mod base;
pub mod ident;
pub mod shared;
pub mod types;

verus! {

/// The answer to a request for the description of a schema.
#[derive(Debug)]
pub struct Document {
    pub data: Data,
}

/// What the answer holds: the schema.
#[derive(Debug)]
pub struct Data {
    pub schema: Schema,
}

/// The description of a schema: its root types, the types that it defines,
/// and its directives.
#[derive(Debug)]
pub struct Schema {
    pub query_type: Option<QueryType>,
    pub mutation_type: Option<MutationType>,
    pub subscription_type: Option<SubscriptionType>,
    pub types: Vec<types::full::Type>,
    pub directives: Vec<Directive>,
}

/// The name of the type at which queries start.
#[derive(Debug)]
pub struct QueryType {
    pub name: String,
}

/// The name of the type at which mutations start.
#[derive(Debug)]
pub struct MutationType {
    pub name: String,
}

/// The name of the type at which subscriptions start.
#[derive(Debug)]
pub struct SubscriptionType {
    pub name: String,
}

/// A directive of the schema.
#[derive(Debug)]
pub struct Directive {
    pub name: shared::ItemName,
    pub description: shared::Documentation,
    pub locations: Vec<Location>,
    pub args: Vec<Input>,
}

/// A place at which a directive may stand.
#[derive(Debug, PartialEq, Eq, Structural)]
pub enum Location {
    Field,
    FragmentSpread,
    InlineFragment,
    FieldDefinition,
    EnumValue,
}

/// A field of an object or an interface.
#[derive(Debug, PartialEq)]
pub struct Field {
    pub name: shared::ItemName,
    pub description: shared::Documentation,
    pub deprecated: shared::Deprecated,
    pub args: Vec<Input>,
    pub kind: types::nullable::Type,
}

/// An argument of a field or a directive, or a field of an input object.
#[derive(Debug, PartialEq)]
pub struct Input {
    pub name: shared::ItemName,
    pub description: shared::Documentation,
    pub kind: types::nullable::Type,
    pub default_value: Option<String>,
}

/// What an argument is in generated code: its identifier and the Rust type
/// that stands for its type, where it has both.
pub open spec fn parameter_of(input: Input) -> Option<(Seq<char>, Seq<char>)> {
    match (ident::item_ident_of(input.name.0@), types::nullable::type_text(input.kind)) {
        (Some(name), Some(kind)) => Some((name, kind)),
        _ => None,
    }
}

impl Input {
    /// The identifier of the argument and the Rust type that stands for its
    /// type.
    pub fn parameter(&self) -> (r: Option<(String, String)>)
        ensures
            match parameter_of(*self) {
                Some((name, kind)) => r is Some && r->Some_0.0@ == name && r->Some_0.1@ == kind,
                None => r is None,
            },
    {
        match (self.name.ident(), self.kind.render()) {
            (Some(name), Some(kind)) => Some((name, kind)),
            _ => None,
        }
    }
}

} // verus!
