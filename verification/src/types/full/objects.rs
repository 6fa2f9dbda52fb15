//! Object types.

use vstd::prelude::*;
use crate::shared::{Documentation, TypeName};
use crate::types::list;
use crate::types::nullable;
use crate::Field;

verus! {

/// An object type: a struct that holds the embedded fields, with a method
/// for each of the others.
#[derive(Debug, PartialEq)]
pub struct Type {
    pub name: TypeName,
    pub description: Documentation,
    pub fields: Vec<Field>,
    pub interfaces: Option<Vec<crate::types::interface::parent::Type>>,
}

/// Whether a field is held in the struct of its object: it takes no
/// arguments, and its type is a scalar or an enum, missing or not.
pub open spec fn is_embedded(field: Field) -> bool {
    field.args@.len() == 0 && match field.kind {
        nullable::Type::Scalar { .. } => true,
        nullable::Type::Enum { .. } => true,
        nullable::Type::NonNull { of } => *of is Scalar || *of is Enum,
        _ => false,
    }
}

/// The fields among `fields` that are embedded, or those that are not, in
/// their order.
pub open spec fn kept(fields: Seq<Field>, embedded: bool) -> Seq<Field>
    decreases fields.len(),
{
    if fields.len() == 0 {
        Seq::empty()
    } else if is_embedded(fields.last()) == embedded {
        kept(fields.drop_last(), embedded).push(fields.last())
    } else {
        kept(fields.drop_last(), embedded)
    }
}

/// The fields that the references point to.
pub open spec fn pointed(refs: Seq<&Field>) -> Seq<Field> {
    refs.map_values(|f: &Field| *f)
}

/// Tells whether a field is held in the struct of its object.
pub fn embedded(field: &Field) -> (r: bool)
    ensures
        r == is_embedded(*field),
{
    if field.args.len() != 0 {
        return false;
    }
    match &field.kind {
        nullable::Type::Scalar { .. } => true,
        nullable::Type::Enum { .. } => true,
        nullable::Type::NonNull { of } => match &**of {
            list::Type::Scalar { .. } => true,
            list::Type::Enum { .. } => true,
            _ => false,
        },
        _ => false,
    }
}

/// The fields that are embedded, or those that are not, in their order.
pub fn select(fields: &Vec<Field>, want: bool) -> (r: Vec<&Field>)
    ensures
        pointed(r@) == kept(fields@, want),
{
    let mut out: Vec<&Field> = Vec::new();
    let mut i: usize = 0;
    proof {
        assert(pointed(out@) =~= kept(fields@.subrange(0, 0), want));
    }
    while i < fields.len()
        invariant
            i <= fields.len(),
            pointed(out@) == kept(fields@.subrange(0, i as int), want),
        decreases fields.len() - i,
    {
        let ghost before = out@;
        proof {
            let next = fields@.subrange(0, i + 1);
            assert(next.drop_last() =~= fields@.subrange(0, i as int));
            assert(next.last() == fields@[i as int]);
        }
        if embedded(&fields[i]) == want {
            out.push(&fields[i]);
            proof {
                assert(pointed(out@) =~= pointed(before).push(fields@[i as int]));
            }
        }
        i += 1;
    }
    proof {
        assert(fields@.subrange(0, i as int) =~= fields@);
    }
    out
}

impl Type {
    /// The fields that the generated struct holds.
    pub fn embedded_fields(&self) -> (r: Vec<&Field>)
        ensures
            pointed(r@) == kept(self.fields@, true),
    {
        select(&self.fields, true)
    }

    /// The fields that become methods of the generated struct.
    pub fn method_fields(&self) -> (r: Vec<&Field>)
        ensures
            pointed(r@) == kept(self.fields@, false),
    {
        select(&self.fields, false)
    }
}

} // verus!
