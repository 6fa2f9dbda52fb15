//! What holds of the runtime as a whole, proved from the contracts of its
//! parts.

use std::sync::Arc;
use vstd::prelude::*;
use crate::base::decode::{entity, list_outcome, optional_outcome};
use crate::base::error::Error;
use crate::base::json::{member, Json};
use crate::base::path::{Canonicalizable, Decodable, Path, PathView};
use crate::base::query::query_text;
use crate::base::response::{answer, field_names};
use crate::base::union::{
    is_first_name, lemma_first_name, optional_union_decoded, typename, union_outcome, variant_of,
    Union,
};
use crate::base::wire::{Fragment, LinkView};

verus! {

/// The query document is a function of the chain and of the request alone:
/// two handles with the same chain, asked for the same field with the same
/// fragment, give the same text, whatever items and transports they hold.
pub proof fn law_same_request_same_document<C, T, D, U>(
    a: Path<C, T>,
    b: Path<D, U>,
    target_a: LinkView,
    target_b: LinkView,
    fragment: Fragment,
)
    requires
        a@.chain == b@.chain,
        target_a == target_b,
    ensures
        query_text(a@.chain, target_a, fragment) == query_text(b@.chain, target_b, fragment),
{
}

/// An item does not depend on the way that led to it: the handle that one
/// navigation gives for an item, put under its canonical chain, and the
/// handle that another navigation gives for the same item hold equal items,
/// though their chains may differ.
pub proof fn law_canonical_item<C, T, S, U>(
    from: PathView<C, T>,
    target: LinkView,
    root: PathView<C, S>,
    direct: LinkView,
    item: U,
    reached: Result<Path<C, U>, Error>,
    canonical: Path<C, U>,
    addressed: Result<Path<C, U>, Error>,
)
    requires
        entity(from, target, Some(item), reached),
        reached is Ok ==> canonical@.item == reached->Ok_0@.item,
        entity(root, direct, Some(item), addressed),
    ensures
        reached is Ok,
        addressed is Ok,
        canonical@.item == addressed->Ok_0@.item,
        canonical@.item == item,
{
}

/// A `null` answer to a request for an optional entity is the empty result,
/// never a failure.
pub proof fn law_null_is_empty<C, T, U: Decodable>(
    from: PathView<C, T>,
    target: LinkView,
    r: Result<Option<Path<C, U>>, Error>,
)
    requires
        optional_outcome(from, target, Json::Null, r),
    ensures
        r == Ok::<Option<Path<C, U>>, Error>(None),
{
}

/// A `null` answer to a request for an optional union is the empty result,
/// never a failure.
pub proof fn law_null_union_is_empty<C, T, V: Union<C>>(
    from: &Path<C, T>,
    target: LinkView,
    r: Result<Option<V>, Error>,
)
    requires
        optional_union_decoded(from, target, Json::Null, r),
    ensures
        r == Ok::<Option<V>, Error>(None),
{
}

/// An array of N elements that decodes at all decodes to exactly N handles,
/// all of which share the transport.
pub proof fn law_list_length<C, U: Decodable + Canonicalizable>(
    http: Arc<C>,
    elems: Vec<Json>,
    handles: Vec<Path<C, U>>,
)
    requires
        list_outcome(http, Json::Array(elems), Ok::<Vec<Path<C, U>>, Error>(handles)),
    ensures
        handles@.len() == elems@.len(),
        forall|i: int| 0 <= i < handles@.len() ==> (#[trigger] handles@[i])@.http == http,
{
}

/// An empty array decodes to an empty list, never to a failure.
pub proof fn law_empty_list<C, U: Decodable + Canonicalizable>(
    http: Arc<C>,
    elems: Vec<Json>,
    r: Result<Vec<Path<C, U>>, Error>,
)
    requires
        elems@.len() == 0,
        list_outcome(http, Json::Array(elems), r),
    ensures
        r is Ok,
        r->Ok_0@.len() == 0,
{
}

/// A value whose concrete type is the first declared name at place `i` is
/// decoded by the variant at that place.
pub proof fn law_declared_variant(value: Json, names: Seq<Seq<char>>, i: int)
    requires
        typename(value) is Some,
        is_first_name(names, typename(value)->Some_0, i),
    ensures
        variant_of(value, names) == Some(i),
{
    lemma_first_name(names, typename(value)->Some_0, i);
}

/// A value that names no concrete type, or one that the union does not
/// declare, is the unknown-variant failure and nothing else.
pub proof fn law_undeclared_variant<C, T, V: Union<C>>(
    from: &Path<C, T>,
    target: LinkView,
    value: Json,
    names: Seq<Seq<char>>,
    r: Result<V, Error>,
)
    requires
        typename(value) is None || !names.contains(typename(value)->Some_0),
        union_outcome(from, target, value, names, r),
    ensures
        r == Err::<V, Error>(Error::UnknownVariant),
{
}

/// An envelope with an `errors` key holds no answer, whatever its `data`
/// and whatever the request.
pub proof fn law_errors_key_fails(envelope: Json, names: Seq<Seq<char>>)
    requires
        member(envelope, "errors"@) is Some,
    ensures
        answer(envelope, names) is None,
{
}

/// The walk through a response follows the field names alone: the type
/// conditions of the links play no part in it.
pub proof fn law_walk_ignores_type_conditions(
    chain_a: Seq<LinkView>,
    chain_b: Seq<LinkView>,
    target_a: LinkView,
    target_b: LinkView,
)
    requires
        chain_a.len() == chain_b.len(),
        forall|i: int| 0 <= i < chain_a.len() ==> chain_a[i].indx.name == chain_b[i].indx.name,
        target_a.indx.name == target_b.indx.name,
    ensures
        field_names(chain_a, target_a) == field_names(chain_b, target_b),
{
    assert(field_names(chain_a, target_a) =~= field_names(chain_b, target_b));
}

} // verus!
