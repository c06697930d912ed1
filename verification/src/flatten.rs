//! The flatten orchestrator: parse once, evaluate each path expression in
//! order, expand every matched node into its named children, and coerce each
//! child to the requested kind; fail atomically on malformed input or on a
//! rejected expression, returning no entries.

use vstd::prelude::*;

use crate::digits::push_dec_digits;
use crate::ext::{
    chars_to_string, jv_of, parse_json, parse_of, select_json, select_of, to_node, SelectOutcome,
};
use crate::model::{children_of, Jv};
use crate::node::{
    entries_view, lemma_entries_view_concat, lemma_entries_view_index, lemma_nodes_view_index,
    node_view, JsonNode, NamedChild,
};

verus! {

/// Why a call failed. Type mismatches during coercion are not errors: they
/// resolve to default values.
#[derive(Clone, Copy, Debug, PartialEq, Eq, Structural)]
pub enum FlattenError {
    /// The input text is not well-formed JSON.
    Parse,
    /// A path expression is not a valid JSONPath query.
    Expression,
    /// A matched value could not be re-serialized. The library's own renderer
    /// is total, so no call of it returns this.
    Encoding,
}

/// Names the failure on input text that is not well-formed JSON.
#[allow(non_snake_case)]
pub fn ERROR__MALFORMED_JSON() -> (e: FlattenError)
    ensures
        e == FlattenError::Parse,
{
    FlattenError::Parse
}

/// Names the failure on a path expression the engine rejects.
#[allow(non_snake_case)]
pub fn ERROR__MALFORMED_JSONPATH() -> (e: FlattenError)
    ensures
        e == FlattenError::Expression,
{
    FlattenError::Expression
}

/// Names the failure on a value that cannot be re-serialized.
#[allow(non_snake_case)]
pub fn ERROR__JSON_VALUE_SERIALIZATION() -> (e: FlattenError)
    ensures
        e == FlattenError::Encoding,
{
    FlattenError::Encoding
}

/// The named children of the first `k` matched nodes, concatenated in order.
pub open spec fn children_upto(nodes: Seq<Jv>, k: int) -> Seq<(Seq<char>, Jv)>
    decreases k,
{
    if k <= 0 {
        Seq::empty()
    } else {
        children_upto(nodes, k - 1) + children_of(nodes[k - 1])
    }
}

/// The named children of all matched nodes, concatenated in order.
pub open spec fn children_concat(nodes: Seq<Jv>) -> Seq<(Seq<char>, Jv)> {
    children_upto(nodes, nodes.len() as int)
}

/// The entries contributed by the first `k` expressions, or `None` as soon as
/// the engine does not match one of them.
pub open spec fn sel_upto(doc: Jv, exprs: Seq<Seq<char>>, k: int) -> Option<
    Seq<(Seq<char>, Jv)>,
>
    decreases k,
{
    if k <= 0 {
        Some(Seq::empty())
    } else {
        match sel_upto(doc, exprs, k - 1) {
            None => None,
            Some(acc) => match select_of(doc, exprs[k - 1]) {
                SelectOutcome::Matched(nodes) => Some(acc + children_concat(nodes)),
                _ => None,
            },
        }
    }
}

/// The entries of all expressions against one document content, or `None`
/// when some expression is rejected.
pub open spec fn sel_results(doc: Jv, exprs: Seq<Seq<char>>) -> Option<Seq<(Seq<char>, Jv)>> {
    sel_upto(doc, exprs, exprs.len() as int)
}

/// The engine returns (rather than aborts) on every expression the call
/// reaches: evaluation stops at the first expression that is not matched, so
/// only expressions with all earlier ones matched are constrained, and the
/// root expression `"$"` always returns and is exempt. The few expressions
/// the engine aborts on cannot be guarded against here (no panic can be
/// caught in the library), so every entry point asks this of its caller.
pub open spec fn exprs_return(doc: Jv, exprs: Seq<Seq<char>>) -> bool {
    forall|i: int|
        0 <= i < exprs.len() && exprs[i] != seq!['$'] && sel_upto(doc, exprs, i) is Some ==> !(
        select_of(doc, #[trigger] exprs[i]) is Aborts)
}

/// The callers' duty of `flatten_spec`: when the text parses, the engine
/// returns on every effective expression the call reaches.
pub open spec fn exprs_return_on(text: Seq<char>, exprs: Seq<Seq<char>>) -> bool {
    parse_of(text) matches Some(doc) ==> exprs_return(doc, effective_exprs(exprs))
}

/// An empty expression list means the single root expression `"$"`.
pub open spec fn effective_exprs(exprs: Seq<Seq<char>>) -> Seq<Seq<char>> {
    if exprs.len() == 0 {
        seq![seq!['$']]
    } else {
        exprs
    }
}

/// The character contents of a list of strings.
pub open spec fn strs_view(exprs: Seq<String>) -> Seq<Seq<char>> {
    exprs.map_values(|s: String| s@)
}

/// The whole call, in model terms: the (name, content) pairs produced by the
/// expressions (the empty list standing for `["$"]`) against the parsed
/// document, or the error class when parsing fails or an expression is
/// rejected.
pub open spec fn flatten_spec(text: Seq<char>, exprs: Seq<Seq<char>>) -> Result<
    Seq<(Seq<char>, Jv)>,
    FlattenError,
> {
    match parse_of(text) {
        None => Err(FlattenError::Parse),
        Some(doc) => match sel_results(doc, effective_exprs(exprs)) {
            None => Err(FlattenError::Expression),
            Some(pairs) => Ok(pairs),
        },
    }
}

/// Expands one matched node into its named children: array elements take
/// their decimal index as name, object members their key, scalars nothing.
#[verifier::loop_isolation(false)]
pub fn flatten_children(node: &JsonNode) -> (r: Vec<NamedChild>)
    ensures
        entries_view(r@) == children_of(node@),
{
    let mut out: Vec<NamedChild> = Vec::new();
    match node {
        JsonNode::Arr(items) => {
            let mut i: usize = 0;
            while i < items.len()
                invariant
                    i <= items.len(),
                    out@.len() == i,
                    forall|k: int| 0 <= k < i ==> (#[trigger] out@[k]).name@ == crate::model::dec_digits(
                        k as nat,
                    ) && node_view(out@[k].value) == node_view(items@[k]),
                decreases items.len() - i,
            {
                let mut digits: Vec<char> = Vec::new();
                push_dec_digits(i, &mut digits);
                let name = chars_to_string(&digits);
                proof {
                    assert(Seq::<char>::empty() + crate::model::dec_digits(i as nat)
                        =~= crate::model::dec_digits(i as nat));
                }
                out.push(NamedChild { name, value: items[i].duplicate() });
                i = i + 1;
            }
            proof {
                lemma_entries_view_index(out@);
                lemma_nodes_view_index(items@);
                assert(entries_view(out@) =~= children_of(node@));
            }
        },
        JsonNode::Obj(entries) => {
            let mut i: usize = 0;
            while i < entries.len()
                invariant
                    i <= entries.len(),
                    out@.len() == i,
                    forall|k: int| 0 <= k < i ==> (#[trigger] out@[k]).name@ == entries@[k].name@
                        && node_view(out@[k].value) == node_view(entries@[k].value),
                decreases entries.len() - i,
            {
                out.push(
                    NamedChild {
                        name: entries[i].name.clone(),
                        value: entries[i].value.duplicate(),
                    },
                );
                i = i + 1;
            }
            proof {
                lemma_entries_view_index(out@);
                lemma_entries_view_index(entries@);
                assert(entries_view(out@) =~= children_of(node@));
            }
        },
        _ => {
            proof {
                assert(entries_view(out@) =~= children_of(node@));
            }
        },
    }
    out
}

/// Once some prefix of the expressions is rejected, the whole list is.
proof fn lemma_sel_upto_none(doc: Jv, exprs: Seq<Seq<char>>, k: int, m: int)
    requires
        0 <= k <= m,
        sel_upto(doc, exprs, k) is None,
    ensures
        sel_upto(doc, exprs, m) is None,
    decreases m - k,
{
    if m > k {
        lemma_sel_upto_none(doc, exprs, k, m - 1);
    }
}

/// Evaluates one expression against the document and appends the named
/// children of every matched node, in match order.
#[verifier::loop_isolation(false)]
fn process_expr(doc: &serde_json::Value, expr: &str, out: &mut Vec<NamedChild>) -> (ok: bool)
    requires
        expr@ == seq!['$'] || !(select_of(jv_of(*doc), expr@) is Aborts),
    ensures
        ok <==> select_of(jv_of(*doc), expr@) is Matched,
        select_of(jv_of(*doc), expr@) matches SelectOutcome::Matched(nodes) ==> entries_view(
            final(out)@,
        ) == entries_view(old(out)@) + children_concat(nodes),
        !ok ==> final(out)@ == old(out)@,
        expr@ == seq!['$'] ==> (ok && select_of(jv_of(*doc), expr@) == SelectOutcome::Matched(
            seq![jv_of(*doc)],
        )),
{
    let nodes = match select_json(doc, expr) {
        None => {
            return false;
        },
        Some(ns) => ns,
    };
    let ghost nodesv: Seq<Jv> = nodes@.map_values(|n: serde_json::Value| jv_of(n));
    proof {
        assert(entries_view(out@) + children_upto(nodesv, 0) =~= entries_view(out@));
    }
    let mut j: usize = 0;
    while j < nodes.len()
        invariant
            j <= nodes.len(),
            entries_view(out@) == entries_view(old(out)@) + children_upto(nodesv, j as int),
        decreases nodes.len() - j,
    {
        let node = to_node(&nodes[j]);
        let mut cs = flatten_children(&node);
        proof {
            lemma_entries_view_concat(out@, cs@);
            assert(nodesv[j as int] == jv_of(nodes@[j as int]));
        }
        out.append(&mut cs);
        j = j + 1;
        proof {
            assert(entries_view(out@) =~= entries_view(old(out)@) + children_upto(
                nodesv,
                j as int,
            ));
        }
    }
    true
}

/// Parses the document and produces the (name, value) pairs contributed by
/// all expressions in order, the empty list standing for `["$"]`; fails
/// atomically with the error class of `flatten_spec`.
#[verifier::loop_isolation(false)]
pub fn flatten_pairs(json: &str, exprs: &Vec<String>) -> (r: Result<
    Vec<NamedChild>,
    FlattenError,
>)
    requires
        exprs_return_on(json@, strs_view(exprs@)),
    ensures
        flatten_spec(json@, strs_view(exprs@)) matches Err(e) ==> r == Err::<
            Vec<NamedChild>,
            FlattenError,
        >(e),
        flatten_spec(json@, strs_view(exprs@)) matches Ok(pairs) ==> (r matches Ok(out)
            && entries_view(out@) == pairs),
        parse_of(json@) matches Some(doc) ==> (effective_exprs(strs_view(exprs@)) == seq![
            seq!['$'],
        ] ==> (r matches Ok(out) && entries_view(out@) == children_of(doc))),
{
    let doc = match parse_json(json) {
        None => {
            return Err(FlattenError::Parse);
        },
        Some(d) => d,
    };
    let ghost docv: Jv = jv_of(doc);
    let mut out: Vec<NamedChild> = Vec::new();
    if exprs.len() == 0 {
        proof {
            reveal_strlit("$");
        }
        proof {
            assert("$"@ == seq!['$']);
        }
        let ok = process_expr(&doc, "$", &mut out);
        if !ok {
            proof {
                assert("$"@ == seq!['$']);
                assert(false);
            }
            return Err(FlattenError::Expression);
        }
        proof {
            assert("$"@ == seq!['$']);
            assert(select_of(docv, seq!['$']) == SelectOutcome::Matched(seq![docv]));
            assert(children_upto(seq![docv], 0) == Seq::<(Seq<char>, Jv)>::empty());
            assert(seq![docv][0] == docv);
            assert(children_upto(seq![docv], 1) =~= children_of(docv));
            assert(children_concat(seq![docv]) =~= children_of(docv));
            assert(Seq::<(Seq<char>, Jv)>::empty() + children_concat(seq![docv])
                =~= children_of(docv));
            assert(sel_upto(docv, seq![seq!['$']], 0) == Some(Seq::<(Seq<char>, Jv)>::empty()));
            assert(sel_upto(docv, seq![seq!['$']], 1) == Some(children_of(docv)));
        }
        Ok(out)
    } else {
        let ghost vexprs: Seq<Seq<char>> = strs_view(exprs@);
        let mut i: usize = 0;
        while i < exprs.len()
            invariant
                i <= exprs.len(),
                sel_upto(docv, vexprs, i as int) == Some(entries_view(out@)),
                (vexprs == seq![seq!['$']] && i > 0) ==> entries_view(out@) == children_of(docv),
            decreases exprs.len() - i,
        {
            proof {
                assert(vexprs[i as int] == exprs@[i as int]@);
            }
            let ok = process_expr(&doc, exprs[i].as_str(), &mut out);
            if !ok {
                proof {
                    lemma_sel_upto_none(docv, vexprs, i as int + 1, vexprs.len() as int);
                }
                return Err(FlattenError::Expression);
            }
            proof {
                if vexprs == seq![seq!['$']] && i == 0 {
                    assert(children_upto(seq![docv], 0) == Seq::<(Seq<char>, Jv)>::empty());
                    assert(seq![docv][0] == docv);
                    assert(children_upto(seq![docv], 1) =~= children_of(docv));
                    assert(children_concat(seq![docv]) =~= children_of(docv));
                    assert(Seq::<(Seq<char>, Jv)>::empty() + children_of(docv) =~= children_of(
                        docv,
                    ));
                }
            }
            i = i + 1;
        }
        Ok(out)
    }
}

} // verus!
