//! The query composer: from a chain of links and the fragment of the field
//! that is asked for to the text of one query document.

use vstd::prelude::*;
use vstd::string::*;
use crate::base::wire::{chain_view, Fragment, Link, LinkView, Selection};

verus! {

/// An inline fragment: `... on <kind> { <body> }`.
pub open spec fn inline_fragment(kind: Seq<char>, body: Seq<char>) -> Seq<char> {
    "... on "@ + kind + " { "@ + body + " }"@
}

/// The text of one selection: a field is its bare name, a nested fragment is
/// an inline fragment around its own selections.
pub open spec fn selection_text(s: Selection) -> Seq<char>
    decreases s, 0nat,
{
    match s {
        Selection::Field(name) => name@,
        Selection::Fragment(f) => fragment_text(f),
    }
}

/// The text of a fragment that stands as a selection.
pub open spec fn fragment_text(f: Fragment) -> Seq<char>
    decreases f, f.body@.len() + 1,
{
    inline_fragment(f.kind@, prefix_text(f, f.body@.len()))
}

/// The text of the first `n` selections of a fragment, each parted from the
/// next by one space.
pub open spec fn prefix_text(f: Fragment, n: nat) -> Seq<char>
    decreases f, n,
{
    if n == 0 || n > f.body@.len() {
        Seq::empty()
    } else if n == 1 {
        selection_text(f.body@[0])
    } else {
        prefix_text(f, (n - 1) as nat) + " "@ + selection_text(f.body@[n - 1])
    }
}

/// The selection body of a fragment: all its selections.
pub open spec fn body_text(f: Fragment) -> Seq<char> {
    prefix_text(f, f.body@.len())
}

/// The literal arguments of an index, `<key>: <value>` each, parted by a
/// comma and a space, in the order of the index.
pub open spec fn args_text(args: Seq<(Seq<char>, Seq<char>)>) -> Seq<char>
    decreases args.len(),
{
    if args.len() == 0 {
        Seq::empty()
    } else if args.len() == 1 {
        args[0].0 + ": "@ + args[0].1
    } else {
        args_text(args.drop_last()) + ", "@ + args.last().0 + ": "@ + args.last().1
    }
}

/// The body narrowed by the link's type condition, where it has one.
pub open spec fn narrowed(link: LinkView, body: Seq<char>) -> Seq<char> {
    match link.kind {
        Some(kind) => inline_fragment(kind, body),
        None => body,
    }
}

/// One link around a body: the type condition first, where there is one, then
/// the field with its arguments.
pub open spec fn wrap_link(link: LinkView, body: Seq<char>) -> Seq<char> {
    if link.indx.args.len() == 0 {
        link.indx.name + " { "@ + narrowed(link, body) + " }"@
    } else {
        link.indx.name + "("@ + args_text(link.indx.args) + ") { "@ + narrowed(link, body)
            + " }"@
    }
}

/// A chain around a body, from the leaf to the root.
pub open spec fn wrap_chain(chain: Seq<LinkView>, body: Seq<char>) -> Seq<char>
    decreases chain.len(),
{
    if chain.len() == 0 {
        body
    } else {
        wrap_chain(chain.drop_last(), wrap_link(chain.last(), body))
    }
}

/// The query document that asks for `target` below `chain`, selecting what
/// `fragment` lists.
pub open spec fn query_text(chain: Seq<LinkView>, target: LinkView, fragment: Fragment) -> Seq<
    char,
> {
    "query { "@ + wrap_chain(chain.push(target), body_text(fragment)) + " }"@
}

/// Renders the selection body of a fragment.
pub fn render_body(f: &Fragment) -> (r: String)
    ensures
        r@ == body_text(*f),
    decreases f, 1nat,
{
    let mut out = String::new();
    let mut i: usize = 0;
    while i < f.body.len()
        invariant
            i <= f.body.len(),
            out@ == prefix_text(*f, i as nat),
        decreases f.body.len() - i,
    {
        let ghost before = out@;
        if i > 0 {
            out.append(" ");
        }
        match &f.body[i] {
            Selection::Field(name) => {
                out.append(name.as_str());
            },
            Selection::Fragment(inner) => {
                let text = render_fragment(inner);
                out.append(text.as_str());
            },
        }
        proof {
            let item = selection_text(f.body@[i as int]);
            if i == 0 {
                assert(out@ =~= item);
            } else {
                assert(out@ == before + " "@ + item);
                assert((i + 1 - 1) as nat == i as nat);
            }
            assert(out@ == prefix_text(*f, (i + 1) as nat));
        }
        i += 1;
    }
    out
}

/// Renders a fragment as an inline fragment.
pub fn render_fragment(f: &Fragment) -> (r: String)
    ensures
        r@ == fragment_text(*f),
    decreases f, 2nat,
{
    let body = render_body(f);
    inline(f.kind.as_str(), body.as_str())
}

/// Renders `... on <kind> { <body> }`.
pub fn inline(kind: &str, body: &str) -> (r: String)
    ensures
        r@ == inline_fragment(kind@, body@),
{
    let mut out = String::from_str("... on ");
    out.append(kind);
    out.append(" { ");
    out.append(body);
    out.append(" }");
    out
}

/// Renders the arguments of an index.
pub fn render_args(args: &Vec<(String, String)>) -> (r: String)
    ensures
        r@ == args_text(crate::base::wire::args_view(args@)),
{
    let ghost all = crate::base::wire::args_view(args@);
    let mut out = String::new();
    let mut i: usize = 0;
    while i < args.len()
        invariant
            i <= args.len(),
            all == crate::base::wire::args_view(args@),
            out@ == args_text(all.subrange(0, i as int)),
        decreases args.len() - i,
    {
        let ghost before = out@;
        if i > 0 {
            out.append(", ");
        }
        out.append(args[i].0.as_str());
        out.append(": ");
        out.append(args[i].1.as_str());
        proof {
            let next = all.subrange(0, i + 1);
            assert(next.drop_last() =~= all.subrange(0, i as int));
            assert(next.last() == all[i as int]);
            if i == 0 {
                assert(out@ =~= next[0].0 + ": "@ + next[0].1);
            }
        }
        i += 1;
    }
    proof {
        assert(all.subrange(0, i as int) =~= all);
    }
    out
}

/// Wraps one link around a body.
pub fn wrap(link: &Link, body: String) -> (r: String)
    ensures
        r@ == wrap_link(link@, body@),
{
    let inner = match &link.kind {
        Some(kind) => inline(kind.as_str(), body.as_str()),
        None => body,
    };
    let mut out = link.indx.name.clone();
    if link.indx.args.len() == 0 {
        out.append(" { ");
    } else {
        let args = render_args(&link.indx.args);
        out.append("(");
        out.append(args.as_str());
        out.append(") { ");
    }
    out.append(inner.as_str());
    out.append(" }");
    out
}

/// Pushing a link on a chain puts that link innermost.
pub proof fn lemma_wrap_chain_push(chain: Seq<LinkView>, link: LinkView, body: Seq<char>)
    ensures
        wrap_chain(chain.push(link), body) == wrap_chain(chain, wrap_link(link, body)),
{
    assert(chain.push(link).drop_last() =~= chain);
}

/// Composes the query document for `target` below `chain`.
///
/// The selection body of `fragment` is wrapped by `target` and then by every
/// link of `chain`, the last link first, and the whole by one `query { .. }`
/// block. The text is a function of the three arguments alone.
pub fn compose(chain: &Vec<Link>, target: &Link, fragment: &Fragment) -> (r: String)
    ensures
        r@ == query_text(chain_view(chain@), target@, *fragment),
{
    let ghost links = chain_view(chain@);
    let ghost whole = wrap_chain(links.push(target@), body_text(*fragment));
    let mut body = wrap(target, render_body(fragment));
    proof {
        lemma_wrap_chain_push(links, target@, body_text(*fragment));
        assert(links.subrange(0, chain.len() as int) =~= links);
    }
    let mut i: usize = chain.len();
    while i > 0
        invariant
            i <= chain.len(),
            links == chain_view(chain@),
            whole == wrap_chain(links.subrange(0, i as int), body@),
        decreases i,
    {
        let ghost before = body@;
        i -= 1;
        body = wrap(&chain[i], body);
        proof {
            let upto = links.subrange(0, i + 1);
            assert(upto.drop_last() =~= links.subrange(0, i as int));
            assert(upto.last() == chain@[i as int]@);
        }
    }
    let mut out = String::from_str("query { ");
    out.append(body.as_str());
    out.append(" }");
    out
}

} // verus!
