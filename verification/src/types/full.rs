//! The types that a schema defines, in full.

use vstd::prelude::*;

pub mod enums;
pub mod inputs;
pub mod interfaces;
pub mod objects;
pub mod scalars;
pub mod unions;

verus! {

/// A type that the schema defines, by its kind.
#[derive(Debug, PartialEq)]
pub enum Type {
    Input(inputs::Type),
    Object(objects::Type),
    Enum(enums::Type),
    Interface(interfaces::Type),
    Union(unions::Type),
    Scalar(scalars::Type),
}

} // verus!
