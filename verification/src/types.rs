//! The types of a schema, as its description refers to them and as it
//! defines them.

pub mod full;
pub mod interface;
pub mod list;
pub mod named;
pub mod nullable;
