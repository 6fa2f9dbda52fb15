//! The response extractor: from the envelope of a response and the chain
//! that the query was composed from to the one value that answers it.

use vstd::prelude::*;
use vstd::string::*;
use crate::base::error::GqlError;
use crate::base::json::{member, Json};
use crate::base::wire::{chain_view, Link, LinkView};

verus! {

/// The keys that the walk follows: the field name of every link of the
/// chain, root first, then that of the target. Type conditions play no part.
pub open spec fn field_names(chain: Seq<LinkView>, target: LinkView) -> Seq<Seq<char>> {
    chain.push(target).map_values(|l: LinkView| l.indx.name)
}

/// The value reached from `value` by following `names` in order; nothing as
/// soon as a key is missing.
pub open spec fn descend(value: Json, names: Seq<Seq<char>>) -> Option<Json>
    decreases names.len(),
{
    if names.len() == 0 {
        Some(value)
    } else {
        match member(value, names[0]) {
            Some(inner) => descend(inner, names.skip(1)),
            None => None,
        }
    }
}

/// The answer that an envelope holds for the walk along `names`: nothing
/// where it has an `errors` key, whatever else it holds, or no `data` key.
pub open spec fn answer(envelope: Json, names: Seq<Seq<char>>) -> Option<Json> {
    if member(envelope, "errors"@).is_some() {
        None
    } else {
        match member(envelope, "data"@) {
            Some(data) => descend(data, names),
            None => None,
        }
    }
}

/// Whether the walk along the chain and the target finds every key.
fn reaches(data: &Json, chain: &Vec<Link>, target: &Link) -> (r: bool)
    ensures
        r == descend(*data, field_names(chain_view(chain@), target@)).is_some(),
{
    let ghost names = field_names(chain_view(chain@), target@);
    let mut value: &Json = data;
    let mut i: usize = 0;
    proof {
        assert(names.skip(0) =~= names);
    }
    while i < chain.len()
        invariant
            i <= chain.len(),
            names == field_names(chain_view(chain@), target@),
            descend(*data, names) == descend(*value, names.skip(i as int)),
        decreases chain.len() - i,
    {
        proof {
            assert(names.skip(i as int)[0] == chain@[i as int].indx.name@);
            assert(names.skip(i as int).skip(1) =~= names.skip(i + 1));
        }
        match value.get(&chain[i].indx.name) {
            Some(inner) => {
                value = inner;
            },
            None => {
                return false;
            },
        }
        i += 1;
    }
    let last = value.get(&target.indx.name);
    proof {
        let rest = names.skip(i as int);
        assert(rest[0] == target.indx.name@);
        assert(rest.skip(1).len() == 0);
        if let Some(inner) = last {
            assert(descend(*inner, rest.skip(1)) == Some(*inner));
        }
    }
    last.is_some()
}

/// Walks by value along the chain and the target.
fn take(data: Json, chain: &Vec<Link>, target: &Link) -> (r: Option<Json>)
    ensures
        r == descend(data, field_names(chain_view(chain@), target@)),
{
    let ghost names = field_names(chain_view(chain@), target@);
    let mut value: Json = data;
    let mut i: usize = 0;
    proof {
        assert(names.skip(0) =~= names);
    }
    while i < chain.len()
        invariant
            i <= chain.len(),
            names == field_names(chain_view(chain@), target@),
            descend(data, names) == descend(value, names.skip(i as int)),
        decreases chain.len() - i,
    {
        proof {
            assert(names.skip(i as int)[0] == chain@[i as int].indx.name@);
            assert(names.skip(i as int).skip(1) =~= names.skip(i + 1));
        }
        match value.into_member(&chain[i].indx.name) {
            Some(inner) => {
                value = inner;
            },
            None => {
                return None;
            },
        }
        i += 1;
    }
    let ghost rest = names.skip(i as int);
    let ghost held = value;
    let last = value.into_member(&target.indx.name);
    proof {
        assert(rest[0] == target.indx.name@);
        assert(rest.skip(1).len() == 0);
        if last.is_some() {
            assert(descend(last.unwrap(), rest.skip(1)) == last);
        }
        assert(descend(held, rest) == last);
    }
    last
}

/// Extracts from a response envelope the value that answers the query for
/// `target` below `chain`.
///
/// The call fails with the whole envelope where the envelope has an `errors`
/// key, has no `data` key, or lacks a key on the walk from `data` along the
/// field names of `chain` and then of `target`. Otherwise the value found is
/// moved out of the envelope and returned.
pub fn extract(envelope: Json, chain: &Vec<Link>, target: &Link) -> (r: Result<Json, GqlError>)
    ensures
        match answer(envelope, field_names(chain_view(chain@), target@)) {
            Some(value) => r == Ok::<Json, GqlError>(value),
            None => r == Err::<Json, GqlError>(GqlError(envelope)),
        },
{
    let errors = String::from_str("errors");
    let data = String::from_str("data");
    if envelope.get(&errors).is_some() {
        return Err(GqlError(envelope));
    }
    let found = match envelope.get(&data) {
        Some(inner) => reaches(inner, chain, target),
        None => false,
    };
    if !found {
        return Err(GqlError(envelope));
    }
    // The walk was seen to reach the answer, so neither step below can miss.
    match envelope.into_member(&data) {
        Some(inner) => match take(inner, chain, target) {
            Some(value) => Ok(value),
            None => Err(GqlError(Json::Null)),
        },
        None => Err(GqlError(Json::Null)),
    }
}

} // verus!
