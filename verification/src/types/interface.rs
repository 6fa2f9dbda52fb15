//! The types on either side of an interface: those that implement it, and
//! those that it extends.

pub mod child;
pub mod parent;
