//! The decode strategies: from the value that answers a request to a new
//! handle, an optional handle, or a list of handles. The shape that the
//! caller asks for selects the strategy.

use std::sync::Arc;
use vstd::prelude::*;
use crate::base::error::{Error, GqlError};
use crate::base::json::Json;
use crate::base::path::{Canonicalizable, Decodable, Path, PathView};
use crate::base::response::{answer, field_names};
use crate::base::wire::{chain_view, Link, LinkView};

verus! {

/// What the bare-entity strategy returns for each outcome of reading the
/// item: a handle below `from` for an item that was read, a decode failure
/// for none.
pub open spec fn entity<C, T, U>(
    from: PathView<C, T>,
    target: LinkView,
    item: Option<U>,
    r: Result<Path<C, U>, Error>,
) -> bool {
    match item {
        Some(x) => r is Ok && r->Ok_0@ == (PathView {
            http: from.http,
            chain: from.chain.push(target),
            item: x,
        }),
        None => r == Err::<Path<C, U>, Error>(Error::Decode),
    }
}

/// What the optional strategy returns for a value other than `null`: the
/// inner result, present where it is a success.
pub open spec fn present<X>(inner: Result<X, Error>) -> Result<Option<X>, Error> {
    match inner {
        Ok(x) => Ok(Some(x)),
        Err(e) => Err(e),
    }
}

/// What the bare-entity strategy may return for a value: what [`entity`]
/// gives for an outcome of reading the item from it.
pub open spec fn entity_outcome<C, T, U: Decodable>(
    from: PathView<C, T>,
    target: LinkView,
    value: Json,
    r: Result<Path<C, U>, Error>,
) -> bool {
    exists|item: Option<U>| call_ensures(U::read, (&value,), item) && entity(from, target, item, r)
}

/// What the optional strategy may return for a value: the empty result for
/// `null`, and for any other value what the bare-entity strategy gives,
/// present where it is a success.
pub open spec fn optional_outcome<C, T, U: Decodable>(
    from: PathView<C, T>,
    target: LinkView,
    value: Json,
    r: Result<Option<Path<C, U>>, Error>,
) -> bool {
    if value is Null {
        r == Ok::<Option<Path<C, U>>, Error>(None)
    } else {
        exists|inner: Result<Path<C, U>, Error>|
            entity_outcome(from, target, value, inner) && r == present(inner)
    }
}

/// What the list strategy may return for a value: for an array, one handle
/// for each element, in order, or a decode failure where an element cannot
/// be read; for any other value a decode failure.
pub open spec fn list_outcome<C, U: Decodable + Canonicalizable>(
    http: Arc<C>,
    value: Json,
    r: Result<Vec<Path<C, U>>, Error>,
) -> bool {
    match value {
        Json::Array(elems) => match r {
            Ok(handles) => handles@.len() == elems@.len() && forall|i: int|
                0 <= i < elems@.len() ==> call_ensures(
                    U::read,
                    (&elems@[i],),
                    Some((#[trigger] handles@[i])@.item),
                ) && listed(http, handles@[i]@.item, handles@[i]),
            Err(e) => e == Error::Decode && exists|i: int|
                0 <= i < elems@.len() && call_ensures(
                    U::read,
                    (&#[trigger] elems@[i],),
                    None::<U>,
                ),
        },
        _ => r == Err::<Vec<Path<C, U>>, Error>(Error::Decode),
    }
}

/// Whether `handle` is the handle of a list element `item`: it shares the
/// transport `http`, holds the item, and its chain is one by which the item
/// addresses itself.
pub open spec fn listed<C, U: Canonicalizable>(http: Arc<C>, item: U, handle: Path<C, U>) -> bool {
    &&& handle@.http == http
    &&& handle@.item == item
    &&& exists|chain: Vec<Link>|
        call_ensures(U::canonicalize, (&item,), chain) && handle@.chain == chain_view(chain@)
}

/// The items of a vector in the opposite order.
pub(crate) fn reversed<U>(items: Vec<U>) -> (r: Vec<U>)
    ensures
        r@ == items@.reverse(),
{
    let mut items = items;
    let ghost all = items@;
    let mut out: Vec<U> = Vec::new();
    while items.len() > 0
        invariant
            items@.len() + out@.len() == all.len(),
            items@ == all.subrange(0, items@.len() as int),
            forall|j: int| 0 <= j < out@.len() ==> out@[j] == all[all.len() - 1 - j],
        decreases items@.len(),
    {
        let last = items.pop();
        if let Some(x) = last {
            out.push(x);
        }
    }
    proof {
        assert(out@ =~= all.reverse());
    }
    out
}

/// Reads every element of a response array, in order.
///
/// All the items where every element can be read; nothing as soon as one
/// cannot.
pub fn read_all<U: Decodable>(elems: &Vec<Json>) -> (r: Option<Vec<U>>)
    ensures
        match r {
            Some(items) => items@.len() == elems@.len() && forall|i: int|
                0 <= i < elems@.len() ==> call_ensures(
                    U::read,
                    (&elems@[i],),
                    Some(#[trigger] items@[i]),
                ),
            None => exists|i: int|
                0 <= i < elems@.len() && call_ensures(U::read, (&#[trigger] elems@[i],), None::<U>),
        },
{
    let mut items: Vec<U> = Vec::new();
    let mut i: usize = 0;
    while i < elems.len()
        invariant
            i <= elems.len(),
            items@.len() == i,
            forall|j: int|
                0 <= j < i ==> call_ensures(U::read, (&elems@[j],), Some(#[trigger] items@[j])),
        decreases elems.len() - i,
    {
        match U::read(&elems[i]) {
            Some(item) => {
                items.push(item);
            },
            None => {
                assert(call_ensures(U::read, (&elems@[i as int],), None::<U>));
                return None;
            },
        }
        i += 1;
    }
    Some(items)
}

impl<C, T> Path<C, T> {
    /// The bare-entity strategy, given the outcome of reading the item: a
    /// handle whose chain is this handle's chain with `target` at its end,
    /// or a decode failure where no item was read.
    pub fn place<U>(&self, target: Link, item: Option<U>) -> (r: Result<Path<C, U>, Error>)
        ensures
            entity(self@, target@, item, r),
    {
        match item {
            Some(x) => Ok(self.extend(target, x)),
            None => Err(Error::Decode),
        }
    }

    /// Bare entity: reads the item from the value and hands out a handle
    /// whose chain is this handle's chain with `target` at its end.
    pub fn decode<U: Decodable>(&self, target: Link, value: Json) -> (r: Result<Path<C, U>, Error>)
        ensures
            entity_outcome(self@, target@, value, r),
    {
        let item = U::read(&value);
        self.place(target, item)
    }

    /// Optional entity: `null` is the empty result and never a failure; any
    /// other value goes to the bare-entity strategy.
    pub fn decode_optional<U: Decodable>(&self, target: Link, value: Json) -> (r: Result<
        Option<Path<C, U>>,
        Error,
    >)
        ensures
            optional_outcome(self@, target@, value, r),
    {
        if value.is_null() {
            Ok(None)
        } else {
            let ghost link = target@;
            let inner = self.decode::<U>(target, value);
            let ghost seen = inner;
            let r = match inner {
                Ok(handle) => Ok(Some(handle)),
                Err(e) => Err(e),
            };
            proof {
                assert(entity_outcome(self@, link, value, seen) && r == present(seen));
            }
            r
        }
    }

    /// List of entities: one handle for each element of the array, in
    /// order, each under the chain by which its own item addresses itself
    /// and all sharing this handle's transport. The list itself gets no
    /// chain. An empty array gives an empty list. A value that is no array,
    /// or an element that cannot be read, is a decode failure.
    pub fn decode_list<U: Decodable + Canonicalizable>(&self, target: Link, value: Json) -> (r:
        Result<Vec<Path<C, U>>, Error>)
        ensures
            list_outcome(self@.http, value, r),
    {
        match value {
            Json::Array(elems) => match read_all::<U>(&elems) {
                Some(items) => {
                    let whole = self.extend(target, items);
                    Ok(whole.spread())
                },
                None => Err(Error::Decode),
            },
            _ => Err(Error::Decode),
        }
    }

    /// The second half of a navigation to a bare entity: extracts the
    /// answer from the envelope and decodes it.
    pub fn resolve<U: Decodable>(&self, target: Link, envelope: Json) -> (r: Result<
        Path<C, U>,
        Error,
    >)
        ensures
            match answer(envelope, field_names(self@.chain, target@)) {
                Some(value) => entity_outcome(self@, target@, value, r),
                None => r == Err::<Path<C, U>, Error>(Error::Gql(GqlError(envelope))),
            },
    {
        match self.answer(&target, envelope) {
            Ok(value) => self.decode(target, value),
            Err(e) => Err(e),
        }
    }

    /// The second half of a navigation to an optional entity.
    pub fn resolve_optional<U: Decodable>(&self, target: Link, envelope: Json) -> (r: Result<
        Option<Path<C, U>>,
        Error,
    >)
        ensures
            match answer(envelope, field_names(self@.chain, target@)) {
                Some(value) => optional_outcome(self@, target@, value, r),
                None => r == Err::<Option<Path<C, U>>, Error>(Error::Gql(GqlError(envelope))),
            },
    {
        match self.answer(&target, envelope) {
            Ok(value) => self.decode_optional(target, value),
            Err(e) => Err(e),
        }
    }

    /// The second half of a navigation to a list of entities.
    pub fn resolve_list<U: Decodable + Canonicalizable>(&self, target: Link, envelope: Json) -> (r:
        Result<Vec<Path<C, U>>, Error>)
        ensures
            match answer(envelope, field_names(self@.chain, target@)) {
                Some(value) => list_outcome(self@.http, value, r),
                None => r == Err::<Vec<Path<C, U>>, Error>(Error::Gql(GqlError(envelope))),
            },
    {
        match self.answer(&target, envelope) {
            Ok(value) => self.decode_list(target, value),
            Err(e) => Err(e),
        }
    }
}

impl<C, U> Path<C, Option<U>> {
    /// A handle for the item where there is one, nothing where there is
    /// none. The chain and the transport stay.
    pub fn transpose(self) -> (r: Option<Path<C, U>>)
        ensures
            match self@.item {
                Some(x) => r is Some && r->Some_0@ == (PathView {
                    http: self@.http,
                    chain: self@.chain,
                    item: x,
                }),
                None => r is None,
            },
    {
        let http = crate::base::path::share(self.transport());
        let path = crate::base::wire::clone_chain(self.chain());
        match self.into_item() {
            Some(x) => Some(Path::from_parts(http, path, x)),
            None => None,
        }
    }
}

impl<C, U: Canonicalizable> Path<C, Vec<U>> {
    /// One handle for each item of the list, in order. The chain of the
    /// list is dropped: each handle gets the chain by which its own item
    /// addresses itself, and all share the transport.
    pub fn spread(self) -> (r: Vec<Path<C, U>>)
        ensures
            r@.len() == self@.item@.len(),
            forall|i: int|
                0 <= i < r@.len() ==> listed(self@.http, self@.item@[i], #[trigger] r@[i]),
    {
        let http = crate::base::path::share(self.transport());
        let ghost items = self@.item@;
        let mut rest = reversed(self.into_item());
        let mut out: Vec<Path<C, U>> = Vec::new();
        while rest.len() > 0
            invariant
                rest@.len() + out@.len() == items.len(),
                forall|j: int| 0 <= j < rest@.len() ==> rest@[j] == items[items.len() - 1 - j],
                forall|j: int| 0 <= j < out@.len() ==> listed(http, items[j], #[trigger] out@[j]),
            decreases rest@.len(),
        {
            let ghost done = out@;
            let next = rest.pop();
            if let Some(item) = next {
                let ghost it = item;
                let chain = item.canonicalize();
                let handle = Path::from_parts(crate::base::path::share(&http), chain, item);
                assert(listed(http, it, handle));
                out.push(handle);
            }
        }
        out
    }
}

} // verus!
