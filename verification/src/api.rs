//! The four entry points: flatten a JSON document's JSONPath-selected
//! children as raw JSON text, 64-bit integers, doubles (as IEEE-754 bits) or
//! strings.

use vstd::prelude::*;

use crate::coerce::{coerce_to_bigint, coerce_to_double_bits, coerce_to_json, coerce_to_string};
use crate::ext::parse_of;
use crate::flatten::{
    effective_exprs, exprs_return_on, flatten_pairs, flatten_spec, strs_view, FlattenError,
};
use crate::model::{children_of, coerce_bigint, coerce_double_bits, coerce_string, render_of, Jv};
use crate::node::{entries_view, lemma_entries_view_index, NamedChild};

verus! {

/// One entry with a 64-bit integer value.
#[derive(Debug)]
pub struct FlattenedBigint {
    pub name: String,
    pub value: i64,
}

/// One entry with a double value, carried as its IEEE-754 bits.
#[derive(Debug)]
pub struct FlattenedDouble {
    pub name: String,
    pub value: u64,
}

/// One entry with a string value.
#[derive(Debug)]
pub struct FlattenedString {
    pub name: String,
    pub value: String,
}

/// One entry with a raw JSON text value.
#[derive(Debug)]
pub struct FlattenedJson {
    pub name: String,
    pub value: String,
}

impl PartialEq for FlattenedBigint {
    fn eq(&self, other: &Self) -> (r: bool) {
        self.name == other.name && self.value == other.value
    }
}

impl vstd::std_specs::cmp::PartialEqSpecImpl for FlattenedBigint {
    open spec fn obeys_eq_spec() -> bool {
        true
    }

    open spec fn eq_spec(&self, other: &Self) -> bool {
        self.name@ == other.name@ && self.value == other.value
    }
}

impl PartialEq for FlattenedDouble {
    fn eq(&self, other: &Self) -> (r: bool) {
        self.name == other.name && self.value == other.value
    }
}

impl vstd::std_specs::cmp::PartialEqSpecImpl for FlattenedDouble {
    open spec fn obeys_eq_spec() -> bool {
        true
    }

    open spec fn eq_spec(&self, other: &Self) -> bool {
        self.name@ == other.name@ && self.value == other.value
    }
}

impl PartialEq for FlattenedString {
    fn eq(&self, other: &Self) -> (r: bool) {
        self.name == other.name && self.value == other.value
    }
}

impl vstd::std_specs::cmp::PartialEqSpecImpl for FlattenedString {
    open spec fn obeys_eq_spec() -> bool {
        true
    }

    open spec fn eq_spec(&self, other: &Self) -> bool {
        self.name@ == other.name@ && self.value@ == other.value@
    }
}

impl PartialEq for FlattenedJson {
    fn eq(&self, other: &Self) -> (r: bool) {
        self.name == other.name && self.value == other.value
    }
}

impl vstd::std_specs::cmp::PartialEqSpecImpl for FlattenedJson {
    open spec fn obeys_eq_spec() -> bool {
        true
    }

    open spec fn eq_spec(&self, other: &Self) -> bool {
        self.name@ == other.name@ && self.value@ == other.value@
    }
}

/// The rows carry exactly the pairs' names, and each value is the integer
/// coercion of the pair's content.
pub open spec fn bigint_rows_match(rows: Seq<FlattenedBigint>, pairs: Seq<(Seq<char>, Jv)>) -> bool {
    &&& rows.len() == pairs.len()
    &&& forall|i: int| 0 <= i < pairs.len() ==> (#[trigger] rows[i]).name@ == pairs[i].0
        && rows[i].value == coerce_bigint(pairs[i].1)
}

/// The rows carry exactly the pairs' names, and each value is the double
/// coercion (as bits) of the pair's content.
pub open spec fn double_rows_match(rows: Seq<FlattenedDouble>, pairs: Seq<(Seq<char>, Jv)>) -> bool {
    &&& rows.len() == pairs.len()
    &&& forall|i: int| 0 <= i < pairs.len() ==> (#[trigger] rows[i]).name@ == pairs[i].0
        && rows[i].value == coerce_double_bits(pairs[i].1)
}

/// The rows carry exactly the pairs' names, and each value is the string
/// coercion of the pair's content.
pub open spec fn string_rows_match(rows: Seq<FlattenedString>, pairs: Seq<(Seq<char>, Jv)>) -> bool {
    &&& rows.len() == pairs.len()
    &&& forall|i: int| 0 <= i < pairs.len() ==> (#[trigger] rows[i]).name@ == pairs[i].0
        && rows[i].value@ == coerce_string(pairs[i].1)
}

/// The rows carry exactly the pairs' names, and each value is the compact
/// re-serialization of the pair's content.
pub open spec fn json_rows_match(rows: Seq<FlattenedJson>, pairs: Seq<(Seq<char>, Jv)>) -> bool {
    &&& rows.len() == pairs.len()
    &&& forall|i: int| 0 <= i < pairs.len() ==> (#[trigger] rows[i]).name@ == pairs[i].0
        && rows[i].value@ == render_of(pairs[i].1)
}

/// The flattening entry points.
pub struct JsonFlatten;

impl JsonFlatten {
    /// Flattens to 64-bit integer entries.
    #[verifier::loop_isolation(false)]
    pub fn json_flatten_bigint(json: String, exprs: Vec<String>) -> (r: Result<
        Vec<FlattenedBigint>,
        FlattenError,
    >)
        requires
            exprs_return_on(json@, strs_view(exprs@)),
        ensures
            flatten_spec(json@, strs_view(exprs@)) matches Err(e) ==> r == Err::<
                Vec<FlattenedBigint>,
                FlattenError,
            >(e),
            flatten_spec(json@, strs_view(exprs@)) matches Ok(pairs) ==> (r matches Ok(rows)
                && bigint_rows_match(rows@, pairs)),
            parse_of(json@) matches Some(doc) ==> (effective_exprs(strs_view(exprs@)) == seq![
                seq!['$'],
            ] ==> (r matches Ok(rows) && bigint_rows_match(rows@, children_of(doc)))),
    {
        let pairs = match flatten_pairs(json.as_str(), &exprs) {
            Err(e) => {
                return Err(e);
            },
            Ok(p) => p,
        };
        proof {
            lemma_entries_view_index(pairs@);
        }
        let ghost vpairs: Seq<(Seq<char>, Jv)> = entries_view(pairs@);
        let mut out: Vec<FlattenedBigint> = Vec::new();
        let mut i: usize = 0;
        while i < pairs.len()
            invariant
                i <= pairs.len(),
                out@.len() == i,
                forall|k: int| 0 <= k < i ==> (#[trigger] out@[k]).name@ == vpairs[k].0
                    && out@[k].value == coerce_bigint(vpairs[k].1),
            decreases pairs.len() - i,
        {
            out.push(
                FlattenedBigint {
                    name: pairs[i].name.clone(),
                    value: coerce_to_bigint(&pairs[i].value),
                },
            );
            i = i + 1;
        }
        Ok(out)
    }

    /// Flattens to double entries, each value carried as IEEE-754 bits.
    #[verifier::loop_isolation(false)]
    pub fn json_flatten_double(json: String, exprs: Vec<String>) -> (r: Result<
        Vec<FlattenedDouble>,
        FlattenError,
    >)
        requires
            exprs_return_on(json@, strs_view(exprs@)),
        ensures
            flatten_spec(json@, strs_view(exprs@)) matches Err(e) ==> r == Err::<
                Vec<FlattenedDouble>,
                FlattenError,
            >(e),
            flatten_spec(json@, strs_view(exprs@)) matches Ok(pairs) ==> (r matches Ok(rows)
                && double_rows_match(rows@, pairs)),
            parse_of(json@) matches Some(doc) ==> (effective_exprs(strs_view(exprs@)) == seq![
                seq!['$'],
            ] ==> (r matches Ok(rows) && double_rows_match(rows@, children_of(doc)))),
    {
        let pairs = match flatten_pairs(json.as_str(), &exprs) {
            Err(e) => {
                return Err(e);
            },
            Ok(p) => p,
        };
        proof {
            lemma_entries_view_index(pairs@);
        }
        let ghost vpairs: Seq<(Seq<char>, Jv)> = entries_view(pairs@);
        let mut out: Vec<FlattenedDouble> = Vec::new();
        let mut i: usize = 0;
        while i < pairs.len()
            invariant
                i <= pairs.len(),
                out@.len() == i,
                forall|k: int| 0 <= k < i ==> (#[trigger] out@[k]).name@ == vpairs[k].0
                    && out@[k].value == coerce_double_bits(vpairs[k].1),
            decreases pairs.len() - i,
        {
            out.push(
                FlattenedDouble {
                    name: pairs[i].name.clone(),
                    value: coerce_to_double_bits(&pairs[i].value),
                },
            );
            i = i + 1;
        }
        Ok(out)
    }

    /// Flattens to string entries.
    #[verifier::loop_isolation(false)]
    pub fn json_flatten_string(json: String, exprs: Vec<String>) -> (r: Result<
        Vec<FlattenedString>,
        FlattenError,
    >)
        requires
            exprs_return_on(json@, strs_view(exprs@)),
        ensures
            flatten_spec(json@, strs_view(exprs@)) matches Err(e) ==> r == Err::<
                Vec<FlattenedString>,
                FlattenError,
            >(e),
            flatten_spec(json@, strs_view(exprs@)) matches Ok(pairs) ==> (r matches Ok(rows)
                && string_rows_match(rows@, pairs)),
            parse_of(json@) matches Some(doc) ==> (effective_exprs(strs_view(exprs@)) == seq![
                seq!['$'],
            ] ==> (r matches Ok(rows) && string_rows_match(rows@, children_of(doc)))),
    {
        let pairs = match flatten_pairs(json.as_str(), &exprs) {
            Err(e) => {
                return Err(e);
            },
            Ok(p) => p,
        };
        proof {
            lemma_entries_view_index(pairs@);
        }
        let ghost vpairs: Seq<(Seq<char>, Jv)> = entries_view(pairs@);
        let mut out: Vec<FlattenedString> = Vec::new();
        let mut i: usize = 0;
        while i < pairs.len()
            invariant
                i <= pairs.len(),
                out@.len() == i,
                forall|k: int| 0 <= k < i ==> (#[trigger] out@[k]).name@ == vpairs[k].0
                    && out@[k].value@ == coerce_string(vpairs[k].1),
            decreases pairs.len() - i,
        {
            out.push(
                FlattenedString {
                    name: pairs[i].name.clone(),
                    value: coerce_to_string(&pairs[i].value),
                },
            );
            i = i + 1;
        }
        Ok(out)
    }

    /// Flattens to raw JSON text entries: each value is the compact
    /// re-serialization of the child, whatever its type.
    #[verifier::loop_isolation(false)]
    pub fn json_flatten_json(json: String, exprs: Vec<String>) -> (r: Result<
        Vec<FlattenedJson>,
        FlattenError,
    >)
        requires
            exprs_return_on(json@, strs_view(exprs@)),
        ensures
            flatten_spec(json@, strs_view(exprs@)) matches Err(e) ==> r == Err::<
                Vec<FlattenedJson>,
                FlattenError,
            >(e),
            flatten_spec(json@, strs_view(exprs@)) matches Ok(pairs) ==> (r matches Ok(rows)
                && json_rows_match(rows@, pairs)),
            parse_of(json@) matches Some(doc) ==> (effective_exprs(strs_view(exprs@)) == seq![
                seq!['$'],
            ] ==> (r matches Ok(rows) && json_rows_match(rows@, children_of(doc)))),
    {
        let pairs = match flatten_pairs(json.as_str(), &exprs) {
            Err(e) => {
                return Err(e);
            },
            Ok(p) => p,
        };
        proof {
            lemma_entries_view_index(pairs@);
        }
        let ghost vpairs: Seq<(Seq<char>, Jv)> = entries_view(pairs@);
        let mut out: Vec<FlattenedJson> = Vec::new();
        let mut i: usize = 0;
        while i < pairs.len()
            invariant
                i <= pairs.len(),
                out@.len() == i,
                forall|k: int| 0 <= k < i ==> (#[trigger] out@[k]).name@ == vpairs[k].0
                    && out@[k].value@ == render_of(vpairs[k].1),
            decreases pairs.len() - i,
        {
            out.push(
                FlattenedJson {
                    name: pairs[i].name.clone(),
                    value: coerce_to_json(&pairs[i].value),
                },
            );
            i = i + 1;
        }
        Ok(out)
    }
}

} // verus!
