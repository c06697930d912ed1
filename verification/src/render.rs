//! Verified compact JSON rendering.
//!
//! Structure, key order and string escaping are the library's own verified
//! logic; each number carries the parser's decimal text, so numbers appear
//! exactly as the parser renders them.

use vstd::prelude::*;

use crate::ext::{chars_to_string, str_chars};
use crate::model::{
    escape_char, escape_str, hex_char, render_entries_upto, render_entry, render_items_upto,
    render_of, Jv,
};
use crate::node::{entries_view, lemma_entries_view_index, lemma_nodes_view_index, node_view,
    nodes_view, JsonNode};

verus! {

/// The lowercase hexadecimal digit character for `d`.
fn hex_char_exec(d: u32) -> (c: char)
    requires
        d < 16,
    ensures
        c == hex_char(d as nat),
{
    match d {
        0 => '0',
        1 => '1',
        2 => '2',
        3 => '3',
        4 => '4',
        5 => '5',
        6 => '6',
        7 => '7',
        8 => '8',
        9 => '9',
        10 => 'a',
        11 => 'b',
        12 => 'c',
        13 => 'd',
        14 => 'e',
        _ => 'f',
    }
}

/// Appends the escaped form of one string-literal character.
fn push_escaped_char(c: char, out: &mut Vec<char>)
    ensures
        final(out)@ == old(out)@ + escape_char(c),
{
    if c == '"' {
        out.push('\\');
        out.push('"');
    } else if c == '\\' {
        out.push('\\');
        out.push('\\');
    } else if c == '\u{8}' {
        out.push('\\');
        out.push('b');
    } else if c == '\t' {
        out.push('\\');
        out.push('t');
    } else if c == '\n' {
        out.push('\\');
        out.push('n');
    } else if c == '\u{c}' {
        out.push('\\');
        out.push('f');
    } else if c == '\r' {
        out.push('\\');
        out.push('r');
    } else if (c as u32) < 32 {
        let v: u32 = c as u32;
        out.push('\\');
        out.push('u');
        out.push('0');
        out.push('0');
        out.push(hex_char_exec(v / 16));
        out.push(hex_char_exec(v % 16));
    } else {
        out.push(c);
    }
    proof {
        assert(out@ =~= old(out)@ + escape_char(c));
    }
}

/// Appends the escaped body of a JSON string literal for `s`.
fn push_escaped_str(s: &str, out: &mut Vec<char>)
    ensures
        final(out)@ == old(out)@ + escape_str(s@),
{
    let cs = str_chars(s);
    let mut i: usize = 0;
    while i < cs.len()
        invariant
            i <= cs.len(),
            cs@ == s@,
            out@ == old(out)@ + escape_str(s@.take(i as int)),
        decreases cs.len() - i,
    {
        proof {
            assert(s@.take(i as int + 1).drop_last() =~= s@.take(i as int));
            assert(s@.take(i as int + 1).last() == s@[i as int]);
        }
        push_escaped_char(cs[i], out);
        i = i + 1;
    }
    proof {
        assert(s@.take(s@.len() as int) =~= s@);
    }
}

/// Appends the compact JSON rendering of `n` to `out`.
#[verifier::loop_isolation(false)]
pub(crate) fn render_into(n: &JsonNode, out: &mut Vec<char>)
    ensures
        final(out)@ == old(out)@ + render_of(n@),
    decreases *n,
{
    match n {
        JsonNode::Null => {
            out.push('n');
            out.push('u');
            out.push('l');
            out.push('l');
            proof {
                assert(out@ =~= old(out)@ + render_of(n@));
            }
        },
        JsonNode::Bool(b) => {
            if *b {
                out.push('t');
                out.push('r');
                out.push('u');
                out.push('e');
            } else {
                out.push('f');
                out.push('a');
                out.push('l');
                out.push('s');
                out.push('e');
            }
            proof {
                assert(out@ =~= old(out)@ + render_of(n@));
            }
        },
        JsonNode::Num(r) => {
            let mut cs = str_chars(r.text.as_str());
            out.append(&mut cs);
            proof {
                assert(out@ =~= old(out)@ + render_of(n@));
            }
        },
        JsonNode::Str(s) => {
            out.push('"');
            push_escaped_str(s.as_str(), out);
            out.push('"');
            proof {
                assert(out@ =~= old(out)@ + render_of(n@));
            }
        },
        JsonNode::Arr(items) => {
            proof {
                lemma_nodes_view_index(items@);
            }
            let ghost vitems: Seq<Jv> = nodes_view(items@);
            out.push('[');
            let mut i: usize = 0;
            while i < items.len()
                invariant
                    i <= items.len(),
                    vitems == nodes_view(items@),
                    vitems.len() == items@.len(),
                    forall|k: int| 0 <= k < items@.len() ==> vitems[k] == #[trigger] node_view(
                        items@[k],
                    ),
                    out@ == old(out)@ + seq!['['] + render_items_upto(vitems, i as int),
                decreases items.len() - i,
            {
                if i > 0 {
                    out.push(',');
                }
                proof {
                    assert(n->Arr_0 == *items);
                    assert(decreases_to!(*n => n->Arr_0));
                    assert(decreases_to!(*items => items@));
                    assert(decreases_to!(items@ => items@[i as int]));
                }
                render_into(&items[i], out);
                i = i + 1;
            }
            out.push(']');
            proof {
                assert(out@ =~= old(out)@ + render_of(n@));
            }
        },
        JsonNode::Obj(entries) => {
            proof {
                lemma_entries_view_index(entries@);
            }
            let ghost ventries: Seq<(Seq<char>, Jv)> = entries_view(entries@);
            out.push('{');
            let mut i: usize = 0;
            while i < entries.len()
                invariant
                    i <= entries.len(),
                    ventries == entries_view(entries@),
                    ventries.len() == entries@.len(),
                    forall|k: int| 0 <= k < entries@.len() ==> ventries[k] == (
                        #[trigger] entries@[k].name@,
                        node_view(entries@[k].value),
                    ),
                    out@ == old(out)@ + seq!['{'] + render_entries_upto(ventries, i as int),
                decreases entries.len() - i,
            {
                if i > 0 {
                    out.push(',');
                }
                out.push('"');
                push_escaped_str(entries[i].name.as_str(), out);
                out.push('"');
                out.push(':');
                proof {
                    assert(n->Obj_0 == *entries);
                    assert(decreases_to!(*n => n->Obj_0));
                    assert(decreases_to!(*entries => entries@));
                    assert(decreases_to!(entries@ => entries@[i as int]));
                    assert(decreases_to!(entries@[i as int] => entries@[i as int].value));
                }
                render_into(&entries[i].value, out);
                proof {
                    assert(render_entry(ventries[i as int]) =~= seq!['"'] + escape_str(
                        entries@[i as int].name@,
                    ) + seq!['"'] + seq![':'] + render_of(node_view(entries@[i as int].value)));
                    assert(out@ =~= old(out)@ + seq!['{'] + render_entries_upto(
                        ventries,
                        i as int + 1,
                    ));
                }
                i = i + 1;
            }
            out.push('}');
            proof {
                assert(out@ =~= old(out)@ + render_of(n@));
            }
        },
    }
}

/// The compact JSON text of a value.
pub fn render_json(n: &JsonNode) -> (r: String)
    ensures
        r@ == render_of(n@),
{
    let mut out: Vec<char> = Vec::new();
    render_into(n, &mut out);
    chars_to_string(&out)
}

} // verus!
