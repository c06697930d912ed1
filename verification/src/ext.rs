//! The trusted boundary to the JSON parser and the JSONPath engine.
//!
//! Three uninterpreted names tie the outside values to the model: `jv_of`
//! gives the abstract content of a parsed document, `parse_of` names what the
//! parser yields on a given text, and `select_of` names what the JSONPath
//! engine yields on a given document content and expression.

use vstd::prelude::*;

use serde_json::Value;

use crate::model::Jv;
use crate::node::JsonNode::{Arr, Bool, Null, Num, Obj, Str};
use crate::node::{JsonNode, NamedChild, NumRepr};

verus! {

#[verifier::external_type_specification]
#[verifier::external_body]
pub struct ExValue(Value);

/// The abstract content of an outside document tree: its structure, keys and
/// string characters, and of each number its integer reading, double reading
/// (as IEEE-754 bits) and decimal rendering.
pub uninterp spec fn jv_of(v: serde_json::Value) -> Jv;

/// What parsing a text yields: `None` on malformed JSON, else the content of
/// the resulting document. The parser is deterministic in the text.
pub uninterp spec fn parse_of(text: Seq<char>) -> Option<Jv>;

/// What the JSONPath engine does on one (document content, expression) pair.
pub enum SelectOutcome {
    /// The engine does not return: its filter evaluation aborts the process
    /// on a few expressions (a numeric literal that overflows to infinity, a
    /// quoted-key union or a range inside a filter term).
    Aborts,
    /// The engine rejects the expression as malformed.
    Rejected,
    /// The contents of the matched sub-documents, in match order.
    Matched(Seq<Jv>),
}

/// What evaluating a JSONPath expression against a document content does:
/// deterministic in the content and the expression alone.
pub uninterp spec fn select_of(doc: Jv, expr: Seq<char>) -> SelectOutcome;

/// Relies on `serde_json::from_str::<Value>`: parses JSON text into a
/// document tree, failing exactly on malformed input.
#[verifier::external_body]
pub(crate) fn parse_json(text: &str) -> (r: Option<serde_json::Value>)
    ensures
        r is Some <==> parse_of(text@) is Some,
        r matches Some(v) ==> parse_of(text@) == Some(jv_of(v)),
{
    serde_json::from_str(text).ok()
}

/// Relies on `jsonpath_lib::select`: evaluates one JSONPath expression
/// against the document, returning `Err` exactly on expressions the engine
/// rejects; the expression `"$"` always yields the document root alone. The
/// engine aborts the process on the expressions `SelectOutcome::Aborts`
/// names, and no panic can be caught here, so `requires` leaves those out;
/// `"$"` compiles to the absolute token alone and always returns, so it is
/// exempt.
#[verifier::external_body]
pub(crate) fn select_json(doc: &serde_json::Value, expr: &str) -> (r: Option<Vec<serde_json::Value>>)
    requires
        expr@ == seq!['$'] || !(select_of(jv_of(*doc), expr@) is Aborts),
    ensures
        r is Some <==> select_of(jv_of(*doc), expr@) is Matched,
        r matches Some(nodes) ==> SelectOutcome::Matched(nodes@.map_values(
            |n: serde_json::Value| jv_of(n),
        )) == select_of(jv_of(*doc), expr@),
        r matches Some(nodes) ==> (expr@ == seq!['$'] ==> nodes@.map_values(
            |n: serde_json::Value| jv_of(n),
        ) == seq![jv_of(*doc)]),
        expr@ == seq!['$'] ==> r is Some,
{
    jsonpath_lib::select(doc, expr).ok().map(|ns| ns.into_iter().cloned().collect())
}

/// Relies on `serde_json::Value`'s accessors (`as_i64`, `as_f64`,
/// `to_string`) to mirror an outside document tree, value for value, as the
/// library's own type.
#[verifier::external_body]
pub(crate) fn to_node(v: &serde_json::Value) -> (r: JsonNode)
    ensures
        r@ == jv_of(*v),
{
    match v {
        Value::Null => Null,
        Value::Bool(b) => Bool(*b),
        Value::Number(n) => {
            let i = n.as_i64();
            let d = n.as_f64().map(|x| x.to_bits()).unwrap_or(0);
            Num(NumRepr { has_int: i.is_some(), int_val: i.unwrap_or(0), dbl_bits: d, text: n.to_string() })
        },
        Value::String(s) => Str(s.clone()),
        Value::Array(a) => Arr(a.iter().map(to_node).collect()),
        Value::Object(o) => Obj(o.iter().map(|(k, w)| NamedChild { name: k.clone(), value: to_node(w) }).collect()),
    }
}

/// Relies on `str::chars`: the characters of a string slice, in order.
#[verifier::external_body]
pub(crate) fn str_chars(s: &str) -> (r: Vec<char>)
    ensures
        r@ == s@,
{
    s.chars().collect()
}

/// Relies on `String::from_iter` over characters: the string with exactly the
/// given characters, in order.
#[verifier::external_body]
pub(crate) fn chars_to_string(v: &Vec<char>) -> (r: String)
    ensures
        r@ == v@,
{
    v.iter().collect()
}

} // verus!
