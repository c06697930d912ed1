//! Proved laws of the flattening model.

use vstd::prelude::*;

use crate::ext::{select_of, SelectOutcome};
use crate::flatten::{
    children_concat, children_upto, effective_exprs, flatten_spec, sel_results, sel_upto,
};
use crate::model::{children_of, dec_digits, Jv};

verus! {

/// An empty expression list is equivalent to the single expression `"$"`:
/// the whole call has the same outcome, for every input text.
pub proof fn lemma_empty_exprs_default(text: Seq<char>)
    ensures
        flatten_spec(text, Seq::<Seq<char>>::empty()) == flatten_spec(text, seq![seq!['$']]),
{
    assert(effective_exprs(Seq::<Seq<char>>::empty()) == effective_exprs(seq![seq!['$']]));
}

/// An array node expands into one entry per element, named by the 0-based
/// index rendered in decimal, in ascending order.
pub proof fn lemma_array_children(items: Seq<Jv>)
    ensures
        children_of(Jv::Arr(items)).len() == items.len(),
        forall|i: int| 0 <= i < items.len() ==> children_of(Jv::Arr(items))[i] == (
            dec_digits(i as nat),
            items[i],
        ),
{
}

/// An object node expands into exactly its members: same names, same
/// contents, in the object's own order.
pub proof fn lemma_object_children(entries: Seq<(Seq<char>, Jv)>)
    ensures
        children_of(Jv::Obj(entries)) == entries,
{
}

/// A scalar node (null, boolean, number or string) has no children and
/// contributes no entries.
pub proof fn lemma_scalar_children(j: Jv)
    requires
        !(j is Arr),
        !(j is Obj),
    ensures
        children_of(j) == Seq::<(Seq<char>, Jv)>::empty(),
{
}

/// The entries of a prefix of the concatenated list are those of the first
/// list alone.
proof fn lemma_sel_upto_prefix(doc: Jv, e1: Seq<Seq<char>>, e2: Seq<Seq<char>>, k: int)
    requires
        0 <= k <= e1.len(),
    ensures
        sel_upto(doc, e1 + e2, k) == sel_upto(doc, e1, k),
    decreases k,
{
    if k > 0 {
        lemma_sel_upto_prefix(doc, e1, e2, k - 1);
        assert((e1 + e2)[k - 1] == e1[k - 1]);
    }
}

/// Extending the evaluation into the second list appends that list's
/// entries after the first list's.
proof fn lemma_sel_upto_concat(doc: Jv, e1: Seq<Seq<char>>, e2: Seq<Seq<char>>, k: int)
    requires
        0 <= k <= e2.len(),
        sel_results(doc, e1) is Some,
    ensures
        sel_upto(doc, e1 + e2, e1.len() + k) == (match sel_upto(doc, e2, k) {
            None => None::<Seq<(Seq<char>, Jv)>>,
            Some(b) => Some(sel_results(doc, e1)->Some_0 + b),
        }),
    decreases k,
{
    if k == 0 {
        lemma_sel_upto_prefix(doc, e1, e2, e1.len() as int);
        assert(sel_results(doc, e1)->Some_0 + Seq::<(Seq<char>, Jv)>::empty() =~= sel_results(
            doc,
            e1,
        )->Some_0);
    } else {
        lemma_sel_upto_concat(doc, e1, e2, k - 1);
        assert((e1 + e2)[e1.len() + k - 1] == e2[k - 1]);
        let sb = sel_upto(doc, e2, k - 1);
        let so = select_of(doc, e2[k - 1]);
        if sb is Some && so is Matched {
            let b = sb->Some_0;
            let nodes = so->Matched_0;
            assert((sel_results(doc, e1)->Some_0 + b) + children_concat(nodes) =~= sel_results(
                doc,
                e1,
            )->Some_0 + (b + children_concat(nodes)));
        }
    }
}

/// Expression lists contribute independently: when both lists succeed on a
/// document, the concatenated list succeeds and yields the first list's
/// entries followed by the second list's, with no merging or deduplication.
pub proof fn lemma_exprs_concat(doc: Jv, exprs1: Seq<Seq<char>>, exprs2: Seq<Seq<char>>)
    requires
        sel_results(doc, exprs1) is Some,
        sel_results(doc, exprs2) is Some,
    ensures
        sel_results(doc, exprs1 + exprs2) == Some(
            sel_results(doc, exprs1)->Some_0 + sel_results(doc, exprs2)->Some_0,
        ),
{
    lemma_sel_upto_concat(doc, exprs1, exprs2, exprs2.len() as int);
}

/// A single expression contributes exactly the children of the nodes it
/// matches, concatenated in match order.
pub proof fn lemma_single_expr(doc: Jv, expr: Seq<char>)
    requires
        select_of(doc, expr) is Matched,
    ensures
        sel_results(doc, seq![expr]) == Some(children_concat(select_of(doc, expr)->Matched_0)),
{
    assert(seq![expr][0] == expr);
    assert(sel_upto(doc, seq![expr], 0) == Some(Seq::<(Seq<char>, Jv)>::empty()));
    assert(Seq::<(Seq<char>, Jv)>::empty() + children_concat(select_of(doc, expr)->Matched_0)
        =~= children_concat(select_of(doc, expr)->Matched_0));
    assert(sel_upto(doc, seq![expr], 1) == Some(
        children_concat(select_of(doc, expr)->Matched_0),
    ));
}

/// One matched node contributes exactly its own children.
pub proof fn lemma_single_node(nodes: Seq<Jv>)
    requires
        nodes.len() == 1,
    ensures
        children_concat(nodes) == children_of(nodes[0]),
{
    assert(children_upto(nodes, 0) == Seq::<(Seq<char>, Jv)>::empty());
    assert(children_upto(nodes, 1) =~= children_of(nodes[0]));
}

} // verus!
