//! Flattens the immediate children of JSONPath-selected sub-documents into an
//! ordered list of (name, value) entries, coercing each child to a requested
//! scalar kind (raw JSON text, 64-bit integer, double given as IEEE-754 bits,
//! or string) with a deterministic default on type mismatch.

pub mod api;
pub mod coerce;
mod digits;
pub mod ext;
pub mod flatten;
pub mod laws;
pub mod model;
pub mod node;
pub mod render;

pub use api::{FlattenedBigint, FlattenedDouble, FlattenedJson, FlattenedString, JsonFlatten};
pub use api::{bigint_rows_match, double_rows_match, json_rows_match, string_rows_match};
pub use coerce::{coerce_to_bigint, coerce_to_double_bits, coerce_to_json, coerce_to_string};
pub use flatten::{flatten_children, flatten_pairs, FlattenError};
pub use flatten::{ERROR__JSON_VALUE_SERIALIZATION, ERROR__MALFORMED_JSON, ERROR__MALFORMED_JSONPATH};
pub use laws::{
    lemma_array_children, lemma_empty_exprs_default, lemma_exprs_concat, lemma_object_children,
    lemma_scalar_children, lemma_single_expr, lemma_single_node,
};
pub use model::Jv;
pub use node::{JsonNode, NamedChild, NumRepr};
pub use render::render_json;
