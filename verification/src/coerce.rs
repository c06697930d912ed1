//! The type coercer: one child value to one requested scalar kind, with the
//! kind's default on type mismatch. Mismatch is data, not an error.

use vstd::prelude::*;

use crate::model::{coerce_bigint, coerce_double_bits, coerce_string, render_of};
use crate::node::JsonNode;
use crate::render::render_json;

verus! {

/// The 64-bit integer reading of a child: the exact value of an integral JSON
/// number, `0` for everything else.
pub fn coerce_to_bigint(node: &JsonNode) -> (r: i64)
    ensures
        r == coerce_bigint(node@),
{
    match node {
        JsonNode::Num(nr) => if nr.has_int {
            nr.int_val
        } else {
            0
        },
        _ => 0,
    }
}

/// The double reading of a child, as IEEE-754 bits: the double value of a
/// JSON number, the bits of `0.0` for everything else.
pub fn coerce_to_double_bits(node: &JsonNode) -> (r: u64)
    ensures
        r == coerce_double_bits(node@),
{
    match node {
        JsonNode::Num(nr) => nr.dbl_bits,
        _ => 0,
    }
}

/// The string reading of a child: the exact character content of a JSON
/// string, the empty string for everything else.
pub fn coerce_to_string(node: &JsonNode) -> (r: String)
    ensures
        r@ == coerce_string(node@),
{
    match node {
        JsonNode::Str(s) => s.clone(),
        _ => String::new(),
    }
}

/// The raw JSON reading of a child: its compact re-serialization, whatever
/// its type.
pub fn coerce_to_json(node: &JsonNode) -> (r: String)
    ensures
        r@ == render_of(node@),
{
    render_json(node)
}

} // verus!
