//! Tagged unions: the concrete type that a response names selects the
//! variant that decodes it.

use vstd::prelude::*;
use vstd::string::*;
use crate::base::decode::{present, reversed};
use crate::base::error::{Error, GqlError};
use crate::base::json::{member, Json};
use crate::base::path::{Path, Queryable};
use crate::base::response::{answer, field_names};
use crate::base::wire::{Fragment, Link, LinkView, Selection};

verus! {

/// A tagged union of entities, whose variants hold handles that share a
/// transport of type `C`.
pub trait Union<C>: Queryable {
    /// The wire names of the concrete types that the union declares, in the
    /// order of its variants.
    fn variants() -> Vec<String>;

    /// Decodes the value as the variant at place `which` of
    /// [`Union::variants`], below the handle `from`. The type condition of
    /// `target` is the wire name of that variant.
    fn decode_variant<T>(from: &Path<C, T>, which: usize, target: Link, value: Json) -> Result<
        Self,
        Error,
    >;
}

/// The concrete type that a value names: the string under its `__typename`
/// key; nothing where the key is missing or holds no string.
pub open spec fn typename(value: Json) -> Option<Seq<char>> {
    match member(value, "__typename"@) {
        Some(Json::String(name)) => Some(name@),
        _ => None,
    }
}

/// The names as character sequences.
pub open spec fn names_view(names: Seq<String>) -> Seq<Seq<char>> {
    names.map_values(|n: String| n@)
}

/// Whether `i` is the first place at which `names` holds `name`, compared
/// exactly.
pub open spec fn is_first_name(names: Seq<Seq<char>>, name: Seq<char>, i: int) -> bool {
    &&& 0 <= i < names.len()
    &&& names[i] == name
    &&& forall|j: int| 0 <= j < i ==> #[trigger] names[j] != name
}

/// The place of the variant that decodes a value: that of the first
/// declared name equal to the concrete type that the value names; nothing
/// where the value names none or one that is not declared.
pub open spec fn variant_of(value: Json, names: Seq<Seq<char>>) -> Option<int> {
    match typename(value) {
        Some(name) => if names.contains(name) {
            Some(choose|i: int| is_first_name(names, name, i))
        } else {
            None
        },
        None => None,
    }
}

/// The link narrowed to a concrete type.
pub open spec fn narrowed_to(target: LinkView, kind: Seq<char>) -> LinkView {
    LinkView { indx: target.indx, kind: Some(kind) }
}

/// What the union strategy may return for a value, given the declared
/// names: the unknown-variant failure where no variant decodes the value,
/// else what the variant's own decoding gives for the link narrowed to it.
pub open spec fn union_outcome<C, T, V: Union<C>>(
    from: &Path<C, T>,
    target: LinkView,
    value: Json,
    names: Seq<Seq<char>>,
    r: Result<V, Error>,
) -> bool {
    match variant_of(value, names) {
        Some(i) => exists|which: usize, link: Link|
            which == i && link@ == narrowed_to(target, names[i]) && #[trigger] call_ensures(
                V::decode_variant::<T>,
                (from, which, link, value),
                r,
            ),
        None => r == Err::<V, Error>(Error::UnknownVariant),
    }
}

/// What the union strategy may return for a value: what [`union_outcome`]
/// gives for names that the union declares.
pub open spec fn union_decoded<C, T, V: Union<C>>(
    from: &Path<C, T>,
    target: LinkView,
    value: Json,
    r: Result<V, Error>,
) -> bool {
    exists|names: Vec<String>|
        call_ensures(V::variants, (), names) && #[trigger] union_outcome(
            from,
            target,
            value,
            names_view(names@),
            r,
        )
}

/// What the optional union strategy may return for a value: the empty
/// result for `null`, and for any other value what the union strategy
/// gives, present where it is a success.
pub open spec fn optional_union_decoded<C, T, V: Union<C>>(
    from: &Path<C, T>,
    target: LinkView,
    value: Json,
    r: Result<Option<V>, Error>,
) -> bool {
    if value is Null {
        r == Ok::<Option<V>, Error>(None)
    } else {
        exists|inner: Result<V, Error>| #[trigger]
            union_decoded(from, target, value, inner) && r == present(inner)
    }
}

/// The first place that holds a name is the only one that `is_first_name`
/// admits.
pub proof fn lemma_first_name(names: Seq<Seq<char>>, name: Seq<char>, i: int)
    requires
        is_first_name(names, name, i),
    ensures
        names.contains(name),
        (choose|k: int| is_first_name(names, name, k)) == i,
{
    let k = choose|k: int| is_first_name(names, name, k);
    assert(is_first_name(names, name, k));
    if k < i {
        assert(names[k] != name);
    }
    if i < k {
        assert(names[i] != name);
    }
}

/// The fragment of a union: its wire name, the `__typename` field, and the
/// fragment of every variant, in order.
pub fn union_fragment(kind: String, variants: Vec<Fragment>) -> (r: Fragment)
    ensures
        r.kind == kind,
        r.body@.len() == variants@.len() + 1,
        r.body@[0] matches Selection::Field(name) && name@ == "__typename"@,
        forall|i: int|
            0 <= i < variants@.len() ==> #[trigger] r.body@[i + 1] == Selection::Fragment(
                variants@[i],
            ),
{
    let ghost all = variants@;
    let mut stack = reversed(variants);
    let mut body: Vec<Selection> = Vec::new();
    body.push(Selection::Field(String::from_str("__typename")));
    while stack.len() > 0
        invariant
            stack@.len() + body@.len() == all.len() + 1,
            body@.len() >= 1,
            body@[0] matches Selection::Field(name) && name@ == "__typename"@,
            forall|j: int| 0 <= j < stack@.len() ==> stack@[j] == all[all.len() - 1 - j],
            forall|i: int|
                0 <= i < body@.len() - 1 ==> #[trigger] body@[i + 1] == Selection::Fragment(
                    all[i],
                ),
        decreases stack@.len(),
    {
        if let Some(f) = stack.pop() {
            body.push(Selection::Fragment(f));
        }
    }
    Fragment { kind, body }
}

/// Reads the concrete type that a value names.
pub fn read_typename(value: &Json) -> (r: Option<&String>)
    ensures
        match r {
            Some(name) => typename(*value) == Some(name@),
            None => typename(*value).is_none(),
        },
{
    let key = String::from_str("__typename");
    match value.get(&key) {
        Some(Json::String(name)) => Some(name),
        _ => None,
    }
}

/// Selects the variant that decodes a value: the first declared name that
/// equals, case and all, the concrete type that the value names.
///
/// A value that names no concrete type, or one that is not declared, is an
/// unknown variant.
pub fn select_variant(value: &Json, names: &Vec<String>) -> (r: Result<usize, Error>)
    ensures
        match r {
            Ok(i) => variant_of(*value, names_view(names@)) == Some(i as int) && i < names@.len(),
            Err(e) => variant_of(*value, names_view(names@)).is_none() && e
                == Error::UnknownVariant,
        },
{
    let ghost all = names_view(names@);
    match read_typename(value) {
        Some(name) => {
            let mut i: usize = 0;
            while i < names.len()
                invariant
                    i <= names.len(),
                    all == names_view(names@),
                    typename(*value) == Some(name@),
                    forall|j: int| 0 <= j < i ==> #[trigger] all[j] != name@,
                decreases names.len() - i,
            {
                if names[i] == *name {
                    proof {
                        assert(all[i as int] == name@);
                        lemma_first_name(all, name@, i as int);
                        assert(variant_of(*value, all) == Some(i as int));
                    }
                    return Ok(i);
                }
                i += 1;
            }
            proof {
                assert(!all.contains(name@));
            }
            Err(Error::UnknownVariant)
        },
        None => Err(Error::UnknownVariant),
    }
}

impl<C, T> Path<C, T> {
    /// Tagged union: the concrete type that the value names selects the
    /// variant, which decodes the value below this handle with the link
    /// narrowed to that type. A value whose concrete type is missing or not
    /// declared is an unknown variant.
    pub fn decode_union<V: Union<C>>(&self, target: Link, value: Json) -> (r: Result<V, Error>)
        ensures
            union_decoded(self, target@, value, r),
    {
        let names = V::variants();
        let ghost asked = target@;
        let r = match select_variant(&value, &names) {
            Ok(which) => {
                let link = Link { indx: target.indx, kind: Some(names[which].clone()) };
                let ghost narrow = link;
                let r = V::decode_variant(self, which, link, value);
                proof {
                    assert(narrow@ == narrowed_to(asked, names_view(names@)[which as int]));
                    assert(call_ensures(
                        V::decode_variant::<T>,
                        (self, which, narrow, value),
                        r,
                    ));
                }
                r
            },
            Err(e) => Err(e),
        };
        proof {
            assert(union_outcome(self, asked, value, names_view(names@), r));
        }
        r
    }

    /// Optional tagged union: `null` is the empty result and never a
    /// failure; any other value goes to the union strategy.
    pub fn decode_optional_union<V: Union<C>>(&self, target: Link, value: Json) -> (r: Result<
        Option<V>,
        Error,
    >)
        ensures
            optional_union_decoded(self, target@, value, r),
    {
        if value.is_null() {
            Ok(None)
        } else {
            let ghost asked = target@;
            let inner = self.decode_union::<V>(target, value);
            let ghost seen = inner;
            let r = match inner {
                Ok(v) => Ok(Some(v)),
                Err(e) => Err(e),
            };
            proof {
                assert(union_decoded(self, asked, value, seen) && r == present(seen));
            }
            r
        }
    }

    /// The second half of a navigation to a tagged union: extracts the
    /// answer from the envelope and decodes it.
    pub fn resolve_union<V: Union<C>>(&self, target: Link, envelope: Json) -> (r: Result<V, Error>)
        ensures
            match answer(envelope, field_names(self@.chain, target@)) {
                Some(value) => union_decoded(self, target@, value, r),
                None => r == Err::<V, Error>(Error::Gql(GqlError(envelope))),
            },
    {
        match self.answer(&target, envelope) {
            Ok(value) => self.decode_union(target, value),
            Err(e) => Err(e),
        }
    }

    /// The second half of a navigation to an optional tagged union.
    pub fn resolve_optional_union<V: Union<C>>(&self, target: Link, envelope: Json) -> (r: Result<
        Option<V>,
        Error,
    >)
        ensures
            match answer(envelope, field_names(self@.chain, target@)) {
                Some(value) => optional_union_decoded(self, target@, value, r),
                None => r == Err::<Option<V>, Error>(Error::Gql(GqlError(envelope))),
            },
    {
        match self.answer(&target, envelope) {
            Ok(value) => self.decode_optional_union(target, value),
            Err(e) => Err(e),
        }
    }
}

} // verus!
