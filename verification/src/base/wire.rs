//! The wire document model: indexes, links, fragments and selections.

use vstd::prelude::*;

verus! {

/// A field name plus its literal arguments.
///
/// Each argument value is already written in wire syntax (a quoted string, a
/// number); it is embedded in the query text as it stands. Arguments keep
/// their order.
#[derive(Debug, PartialEq)]
pub struct Index {
    pub name: String,
    pub args: Vec<(String, String)>,
}

/// The mathematical value of an [`Index`].
pub struct IndexView {
    pub name: Seq<char>,
    pub args: Seq<(Seq<char>, Seq<char>)>,
}

/// The arguments of an index as pairs of character sequences.
pub open spec fn args_view(args: Seq<(String, String)>) -> Seq<(Seq<char>, Seq<char>)> {
    args.map_values(|p: (String, String)| (p.0@, p.1@))
}

impl View for Index {
    type V = IndexView;

    open spec fn view(&self) -> IndexView {
        IndexView { name: self.name@, args: args_view(self.args@) }
    }
}

impl Clone for Index {
    fn clone(&self) -> (r: Self)
        ensures
            r@ == self@,
    {
        let mut args: Vec<(String, String)> = Vec::new();
        let mut i: usize = 0;
        while i < self.args.len()
            invariant
                i <= self.args.len(),
                args@.len() == i,
                forall|j: int|
                    0 <= j < i ==> args@[j].0@ == self.args@[j].0@ && args@[j].1@
                        == self.args@[j].1@,
            decreases self.args.len() - i,
        {
            let pair = &self.args[i];
            args.push((pair.0.clone(), pair.1.clone()));
            i += 1;
        }
        proof {
            assert(args_view(args@) =~= args_view(self.args@));
        }
        Index { name: self.name.clone(), args }
    }
}

/// One step of a path: a field to descend into and, where the field's
/// declared type is polymorphic, the concrete type that narrows it.
#[derive(Debug, PartialEq)]
pub struct Link {
    pub indx: Index,
    pub kind: Option<String>,
}

/// The mathematical value of a [`Link`].
pub struct LinkView {
    pub indx: IndexView,
    pub kind: Option<Seq<char>>,
}

/// The type condition of a link as a character sequence.
pub open spec fn kind_view(kind: Option<String>) -> Option<Seq<char>> {
    match kind {
        Some(k) => Some(k@),
        None => None,
    }
}

impl View for Link {
    type V = LinkView;

    open spec fn view(&self) -> LinkView {
        LinkView { indx: self.indx@, kind: kind_view(self.kind) }
    }
}

impl Clone for Link {
    fn clone(&self) -> (r: Self)
        ensures
            r@ == self@,
    {
        let kind = match &self.kind {
            Some(k) => Some(k.clone()),
            None => None,
        };
        Link { indx: self.indx.clone(), kind }
    }
}

/// The links of a chain as mathematical values, root first.
pub open spec fn chain_view(chain: Seq<Link>) -> Seq<LinkView> {
    chain.map_values(|l: Link| l@)
}

/// A copy of a chain, link by link.
pub fn clone_chain(chain: &Vec<Link>) -> (r: Vec<Link>)
    ensures
        chain_view(r@) == chain_view(chain@),
{
    let mut out: Vec<Link> = Vec::new();
    let mut i: usize = 0;
    while i < chain.len()
        invariant
            i <= chain.len(),
            out@.len() == i,
            forall|j: int| 0 <= j < i ==> out@[j]@ == chain@[j]@,
        decreases chain.len() - i,
    {
        out.push(chain[i].clone());
        i += 1;
    }
    proof {
        assert(chain_view(out@) =~= chain_view(chain@));
    }
    out
}

/// The selection set that is requested whenever a type appears: the type's
/// wire name and its selections, in order.
#[derive(Debug, PartialEq)]
pub struct Fragment {
    pub kind: String,
    pub body: Vec<Selection>,
}

/// A single selection: a leaf field, or a nested fragment spread.
#[derive(Debug, PartialEq)]
pub enum Selection {
    Fragment(Fragment),
    Field(String),
}

} // verus!
