//! The library's own JSON value type.
//!
//! It holds, as plain values, exactly what the flattening and coercion logic
//! reads of a document: structure, keys, string contents, and of each number
//! its integer reading, its double reading as IEEE-754 bits, and its decimal
//! text as the parser renders it.

use vstd::prelude::*;

use crate::model::Jv;

verus! {

/// A JSON number, reduced to the three readings the coercions need.
pub struct NumRepr {
    /// Whether the number is exactly representable as an `i64`.
    pub has_int: bool,
    /// Its `i64` value when `has_int`, `0` otherwise.
    pub int_val: i64,
    /// The IEEE-754 bits of its double-precision reading.
    pub dbl_bits: u64,
    /// Its decimal text, exactly as the parser renders the number.
    pub text: String,
}

/// One (name, value) pair: an object member, or one flattened output entry.
pub struct NamedChild {
    pub name: String,
    pub value: JsonNode,
}

/// A JSON value tree.
pub enum JsonNode {
    Null,
    Bool(bool),
    Num(NumRepr),
    Str(String),
    Arr(Vec<JsonNode>),
    Obj(Vec<NamedChild>),
}

/// The abstract content of a `JsonNode`.
pub open spec fn node_view(n: JsonNode) -> Jv
    decreases n,
{
    match n {
        JsonNode::Null => Jv::Null,
        JsonNode::Bool(b) => Jv::Bool(b),
        JsonNode::Num(r) => Jv::Num {
            has_int: r.has_int,
            int_val: r.int_val,
            dbl_bits: r.dbl_bits,
            text: r.text@,
        },
        JsonNode::Str(s) => Jv::Str(s@),
        JsonNode::Arr(items) => Jv::Arr(nodes_view(items@)),
        JsonNode::Obj(entries) => Jv::Obj(entries_view(entries@)),
    }
}

/// The abstract contents of a sequence of values, element by element.
pub open spec fn nodes_view(items: Seq<JsonNode>) -> Seq<Jv>
    decreases items,
{
    if items.len() == 0 {
        Seq::empty()
    } else {
        seq![node_view(items[0])] + nodes_view(items.drop_first())
    }
}

/// The abstract contents of a sequence of object members, in order.
pub open spec fn entries_view(entries: Seq<NamedChild>) -> Seq<(Seq<char>, Jv)>
    decreases entries,
{
    if entries.len() == 0 {
        Seq::empty()
    } else {
        seq![(entries[0].name@, node_view(entries[0].value))] + entries_view(entries.drop_first())
    }
}

/// Element `i` of `nodes_view` is the view of element `i`.
pub proof fn lemma_nodes_view_index(items: Seq<JsonNode>)
    ensures
        nodes_view(items).len() == items.len(),
        forall|i: int| 0 <= i < items.len() ==> nodes_view(items)[i] == node_view(items[i]),
    decreases items.len(),
{
    if items.len() > 0 {
        lemma_nodes_view_index(items.drop_first());
    }
}

/// `entries_view` distributes over concatenation.
pub proof fn lemma_entries_view_concat(a: Seq<NamedChild>, b: Seq<NamedChild>)
    ensures
        entries_view(a + b) == entries_view(a) + entries_view(b),
{
    lemma_entries_view_index(a);
    lemma_entries_view_index(b);
    lemma_entries_view_index(a + b);
    assert(entries_view(a + b) =~= entries_view(a) + entries_view(b));
}

/// Element `i` of `entries_view` is the (name, content) pair of member `i`.
pub proof fn lemma_entries_view_index(entries: Seq<NamedChild>)
    ensures
        entries_view(entries).len() == entries.len(),
        forall|i: int| 0 <= i < entries.len() ==> entries_view(entries)[i] == (
            entries[i].name@,
            node_view(entries[i].value),
        ),
    decreases entries.len(),
{
    if entries.len() > 0 {
        lemma_entries_view_index(entries.drop_first());
    }
}

impl View for JsonNode {
    type V = Jv;

    open spec fn view(&self) -> Jv {
        node_view(*self)
    }
}

impl JsonNode {
    /// A deep copy with the same abstract content.
    #[verifier::loop_isolation(false)]
    pub fn duplicate(&self) -> (r: JsonNode)
        ensures
            r@ == self@,
        decreases *self,
    {
        match self {
            JsonNode::Null => JsonNode::Null,
            JsonNode::Bool(b) => JsonNode::Bool(*b),
            JsonNode::Num(nr) => JsonNode::Num(
                NumRepr {
                    has_int: nr.has_int,
                    int_val: nr.int_val,
                    dbl_bits: nr.dbl_bits,
                    text: nr.text.clone(),
                },
            ),
            JsonNode::Str(s) => JsonNode::Str(s.clone()),
            JsonNode::Arr(items) => {
                let mut out: Vec<JsonNode> = Vec::new();
                let mut i: usize = 0;
                while i < items.len()
                    invariant
                        i <= items.len(),
                        out@.len() == i,
                        forall|k: int| 0 <= k < i ==> node_view(#[trigger] out@[k]) == node_view(
                            items@[k],
                        ),
                    decreases items.len() - i,
                {
                    proof {
                        assert(decreases_to!(*self => self->Arr_0));
                        assert(decreases_to!(*items => items@));
                        assert(decreases_to!(items@ => items@[i as int]));
                    }
                    out.push(items[i].duplicate());
                    i = i + 1;
                }
                proof {
                    lemma_nodes_view_index(out@);
                    lemma_nodes_view_index(items@);
                    assert(nodes_view(out@) =~= nodes_view(items@));
                }
                JsonNode::Arr(out)
            },
            JsonNode::Obj(entries) => {
                let mut out: Vec<NamedChild> = Vec::new();
                let mut i: usize = 0;
                while i < entries.len()
                    invariant
                        i <= entries.len(),
                        out@.len() == i,
                        forall|k: int| 0 <= k < i ==> (#[trigger] out@[k]).name@
                            == entries@[k].name@ && node_view(out@[k].value) == node_view(
                            entries@[k].value,
                        ),
                    decreases entries.len() - i,
                {
                    proof {
                        assert(decreases_to!(*self => self->Obj_0));
                        assert(decreases_to!(*entries => entries@));
                        assert(decreases_to!(entries@ => entries@[i as int]));
                        assert(decreases_to!(entries@[i as int] => entries@[i as int].value));
                    }
                    out.push(
                        NamedChild {
                            name: entries[i].name.clone(),
                            value: entries[i].value.duplicate(),
                        },
                    );
                    i = i + 1;
                }
                proof {
                    lemma_entries_view_index(out@);
                    lemma_entries_view_index(entries@);
                    assert(entries_view(out@) =~= entries_view(entries@));
                }
                JsonNode::Obj(out)
            },
        }
    }
}

impl View for NamedChild {
    type V = (Seq<char>, Jv);

    open spec fn view(&self) -> (Seq<char>, Jv) {
        (self.name@, node_view(self.value))
    }
}

} // verus!
