//! The path handle: an item together with the chain of links that leads to
//! it from the query root, and the transport that every handle of one
//! session shares.

use std::sync::Arc;
use vstd::prelude::*;
use crate::base::error::{Error, GqlError};
use crate::base::json::Json;
use crate::base::query::{compose, query_text};
use crate::base::response::{answer, extract, field_names};
use crate::base::wire::{chain_view, clone_chain, Fragment, Index, IndexView, Link, LinkView};

verus! {

/// A type that can be asked for: it names the selection set that is
/// requested whenever it appears.
pub trait Queryable: Sized {
    /// The fragment of this type.
    fn query() -> Fragment;
}

/// A type whose items can be read from a response value.
pub trait Decodable: Sized {
    /// Reads an item from a response value; nothing where the value does not
    /// have the shape of this type.
    fn read(value: &Json) -> Option<Self>;
}

/// A type whose items can be addressed from the query root by what
/// identifies them, however they were reached.
pub trait Canonicalizable: Queryable {
    /// The chain that leads from the query root to this item.
    fn canonicalize(&self) -> Vec<Link>;
}

/// An item, the chain of links that leads to it from the query root, and the
/// shared transport.
pub struct Path<C, T> {
    http: Arc<C>,
    path: Vec<Link>,
    item: T,
}

/// The mathematical value of a [`Path`].
pub struct PathView<C, T> {
    pub http: Arc<C>,
    pub chain: Seq<LinkView>,
    pub item: T,
}

impl<C, T> View for Path<C, T> {
    type V = PathView<C, T>;

    closed spec fn view(&self) -> PathView<C, T> {
        PathView { http: self.http, chain: chain_view(self.path@), item: self.item }
    }
}

impl<C, T: Clone> Clone for Path<C, T> {
    /// A handle with the same transport and chain, and a clone of the item.
    fn clone(&self) -> (r: Self)
        ensures
            r@.http == self@.http,
            r@.chain == self@.chain,
            cloned(self@.item, r@.item),
    {
        Path { http: share(&self.http), path: clone_chain(&self.path), item: self.item.clone() }
    }
}

/// One more pointer to the transport that `http` points to.
///
/// Calls `Arc::clone`, which hands out a pointer to the same allocation: the
/// result is the pointer it was given.
#[verifier::external_body]
pub(crate) fn share<C>(http: &Arc<C>) -> (r: Arc<C>)
    ensures
        r == *http,
{
    Arc::clone(http)
}

/// The link for a field request: the index and, where the field's declared
/// type is polymorphic, the kind of the fragment asked for as type condition.
pub open spec fn target_view(index: IndexView, kind: Seq<char>, polymorphic: bool) -> LinkView {
    LinkView { indx: index, kind: if polymorphic { Some(kind) } else { None } }
}

/// Whether `link` and `text` are the link and the query document for the
/// request of a field below `chain`, given the fragment of the shape that is
/// asked for.
pub open spec fn requested(
    chain: Seq<LinkView>,
    index: IndexView,
    polymorphic: bool,
    fragment: Fragment,
    link: LinkView,
    text: Seq<char>,
) -> bool {
    &&& link == target_view(index, fragment.kind@, polymorphic)
    &&& text == query_text(chain, link, fragment)
}

/// Builds the link for a field request.
pub fn target(index: Index, fragment: &Fragment, polymorphic: bool) -> (r: Link)
    ensures
        r@ == target_view(index@, fragment.kind@, polymorphic),
{
    let kind = if polymorphic {
        Some(fragment.kind.clone())
    } else {
        None
    };
    Link { indx: index, kind }
}

impl<C, T> Path<C, T> {
    /// The handle made of the three parts.
    pub fn from_parts(http: Arc<C>, path: Vec<Link>, item: T) -> (r: Self)
        ensures
            r@ == (PathView { http, chain: chain_view(path@), item }),
    {
        Path { http, path, item }
    }

    /// The root handle of a session: the root item, reached by the empty
    /// chain.
    pub fn root(http: Arc<C>, item: T) -> (r: Self)
        ensures
            r@ == (PathView { http, chain: Seq::<LinkView>::empty(), item }),
    {
        let path: Vec<Link> = Vec::new();
        proof {
            assert(chain_view(path@) =~= Seq::<LinkView>::empty());
        }
        Path { http, path, item }
    }

    /// The item that the handle holds.
    pub fn item(&self) -> (r: &T)
        ensures
            *r == self@.item,
    {
        &self.item
    }

    /// The item alone.
    pub fn into_item(self) -> (r: T)
        ensures
            r == self@.item,
    {
        self.item
    }

    /// The chain that leads to the item, root first.
    pub fn chain(&self) -> (r: &Vec<Link>)
        ensures
            chain_view(r@) == self@.chain,
    {
        &self.path
    }

    /// The transport that the handle shares.
    pub fn transport(&self) -> (r: &Arc<C>)
        ensures
            *r == self@.http,
    {
        &self.http
    }

    /// The same item and transport under another chain.
    pub fn rebase(self, chain: Vec<Link>) -> (r: Self)
        ensures
            r@ == (PathView { http: self@.http, chain: chain_view(chain@), item: self@.item }),
    {
        Path { http: self.http, path: chain, item: self.item }
    }

    /// A handle for `item`, reached from this handle's item by `target`.
    ///
    /// The new handle shares the transport; its chain is this handle's chain
    /// with `target` at its end. This handle is left as it is.
    pub fn extend<U>(&self, target: Link, item: U) -> (r: Path<C, U>)
        ensures
            r@ == (PathView { http: self@.http, chain: self@.chain.push(target@), item }),
    {
        let mut path = clone_chain(&self.path);
        let ghost before = path@;
        path.push(target);
        proof {
            assert(chain_view(path@) =~= chain_view(before).push(target@));
        }
        Path { http: share(&self.http), path, item }
    }

    /// The query document that asks for `target` below this handle's chain,
    /// selecting what `fragment` lists.
    pub fn document(&self, target: &Link, fragment: &Fragment) -> (r: String)
        ensures
            r@ == query_text(self@.chain, target@, *fragment),
    {
        compose(&self.path, target, fragment)
    }

    /// The link and the query document for the request of a field as the
    /// shape `U`: the link is built from the index and the fragment of `U`,
    /// the document from this handle's chain, the link and that fragment.
    pub fn request<U: Queryable>(&self, index: Index, polymorphic: bool) -> (r: (Link, String))
        ensures
            exists|fragment: Fragment|
                call_ensures(U::query, (), fragment) && #[trigger] requested(
                    self@.chain,
                    index@,
                    polymorphic,
                    fragment,
                    r.0@,
                    r.1@,
                ),
    {
        let fragment = U::query();
        let ghost asked = index@;
        let link = target(index, &fragment, polymorphic);
        let text = self.document(&link, &fragment);
        let r = (link, text);
        proof {
            assert(requested(self@.chain, asked, polymorphic, fragment, r.0@, r.1@));
        }
        r
    }

    /// The value in a response envelope that answers the query for `target`
    /// below this handle's chain.
    ///
    /// Fails with a protocol failure that carries the envelope where the
    /// envelope has an `errors` key, has no `data` key, or lacks a key on the
    /// walk.
    pub fn answer(&self, target: &Link, envelope: Json) -> (r: Result<Json, Error>)
        ensures
            match answer(envelope, field_names(self@.chain, target@)) {
                Some(value) => r == Ok::<Json, Error>(value),
                None => r == Err::<Json, Error>(Error::Gql(GqlError(envelope))),
            },
    {
        match extract(envelope, &self.path, target) {
            Ok(value) => Ok(value),
            Err(e) => Err(Error::Gql(e)),
        }
    }
}

impl<C, T: Canonicalizable> Path<C, T> {
    /// A handle for an item under the chain by which the item addresses
    /// itself.
    pub fn new(http: Arc<C>, item: T) -> (r: Self)
        ensures
            r@.http == http,
            r@.item == item,
            exists|chain: Vec<Link>|
                call_ensures(T::canonicalize, (&item,), chain) && r@.chain == chain_view(chain@),
    {
        let path = item.canonicalize();
        Path { http, path, item }
    }

    /// The same item under the chain by which it addresses itself, in place
    /// of the chain by which it was reached. No request is made.
    pub fn absolute(self) -> (r: Self)
        ensures
            r@.http == self@.http,
            r@.item == self@.item,
            exists|chain: Vec<Link>|
                call_ensures(T::canonicalize, (&self@.item,), chain) && r@.chain == chain_view(
                    chain@,
                ),
    {
        let path = self.item.canonicalize();
        self.rebase(path)
    }
}

} // verus!
