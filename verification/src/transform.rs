//! The payload transformer: locates the nested `results` object of the raw
//! response document and rewrites its fixed set of time fields from 12-hour
//! to 24-hour form, leaving every other part of the document untouched.

use vstd::prelude::*;
use crate::json::{JsonValue, lookup};
use crate::model::DecodeError;
use crate::strutil::str_eq;
use crate::timefmt::{convert_to_24_hour, normalized24, valid_time12};

verus! {

#[verifier::external_type_specification]
#[verifier::external_body]
pub struct ExValue(serde_json::Value);

/// What the document parser yields for a given body: the body's document
/// tree, or nothing when the body is not a well-formed document. The parse
/// depends on the body text alone.
pub uninterp spec fn json_doc(s: Seq<char>) -> Option<JsonValue>;

/// Relies on `serde_json::from_str::<serde_json::Value>`: a deterministic
/// parse of the body text alone (with the default map representation,
/// object keys come back sorted and without duplicates).
#[verifier::external_body]
fn parse_json(body: &str) -> (r: Option<JsonValue>)
    ensures
        r == json_doc(body@),
{
    match serde_json::from_str::<serde_json::Value>(body) {
        Ok(v) => Some(tree_of_value(&v)),
        Err(_) => None,
    }
}

/// Relies on `serde_json::Value`'s variants alone: rebuilds the parsed
/// document as this crate's own tree, one arm per variant, keys and strings
/// moved over verbatim and numbers kept as their decimal renderings.
#[verifier::external_body]
fn tree_of_value(v: &serde_json::Value) -> JsonValue {
    match v {
        serde_json::Value::Null => JsonValue::Null,
        serde_json::Value::Bool(b) => JsonValue::Bool(*b),
        serde_json::Value::Number(n) => JsonValue::Num(n.to_string()),
        serde_json::Value::String(s) => JsonValue::Text(s.clone()),
        serde_json::Value::Array(a) => JsonValue::Arr(a.iter().map(tree_of_value).collect()),
        serde_json::Value::Object(m) => JsonValue::Obj(
            m.iter().map(|(k, x)| (k.clone(), tree_of_value(x))).collect(),
        ),
    }
}

/// Parses the response body and rewrites the time fields of its `results`
/// object to 24-hour form: the transformed document for a well-formed body,
/// an invalid-document error otherwise.
pub fn convert_times_to_24_hour(body: &str) -> (r: Result<JsonValue, DecodeError>)
    ensures
        r is Err <==> json_doc(body@) is None,
        r matches Err(e) ==> e == DecodeError::InvalidDocument,
        json_doc(body@) matches Some(d) ==> r matches Ok(t) && doc_transformed(d, t),
{
    match parse_json(body) {
        Some(v) => Ok(transform_payload(v)),
        None => Err(DecodeError::InvalidDocument),
    }
}

/// Whether `k` names one of the eight time-of-day fields that are rewritten.
pub open spec fn is_time_field(k: Seq<char>) -> bool {
    ||| k == "sunrise"@
    ||| k == "sunset"@
    ||| k == "first_light"@
    ||| k == "last_light"@
    ||| k == "dawn"@
    ||| k == "dusk"@
    ||| k == "solar_noon"@
    ||| k == "golden_hour"@
}

/// Executable membership test for the fixed set of time fields.
pub fn is_time_field_name(k: &str) -> (r: bool)
    ensures
        r == is_time_field(k@),
{
    str_eq(k, "sunrise") || str_eq(k, "sunset") || str_eq(k, "first_light") || str_eq(
        k,
        "last_light",
    ) || str_eq(k, "dawn") || str_eq(k, "dusk") || str_eq(k, "solar_noon") || str_eq(
        k,
        "golden_hour",
    )
}

/// How one field of the `results` object is rewritten: a time field holding
/// a string becomes its normalized form, or null when the string is not a
/// well-formed 12-hour reading; every other field keeps its value.
pub open spec fn entry_transformed(before: (String, JsonValue), after: (String, JsonValue)) -> bool {
    &&& after.0 == before.0
    &&& match before.1 {
        JsonValue::Text(s) => {
            if is_time_field(before.0@) {
                if valid_time12(s@) {
                    after.1 matches JsonValue::Text(t) && t@ == normalized24(s@)
                } else {
                    after.1 is Null
                }
            } else {
                after.1 == before.1
            }
        },
        _ => after.1 == before.1,
    }
}

/// How one top-level field of the document is rewritten: a `results` field
/// holding an object has each of that object's fields rewritten as
/// `entry_transformed` says; every other field keeps its value.
pub open spec fn top_entry_transformed(
    before: (String, JsonValue),
    after: (String, JsonValue),
) -> bool {
    &&& after.0 == before.0
    &&& if before.0@ == "results"@ {
        match before.1 {
            JsonValue::Obj(rf) => {
                &&& after.1 matches JsonValue::Obj(ra)
                &&& ra@.len() == rf@.len()
                &&& forall|i: int|
                    0 <= i < rf@.len() ==> entry_transformed(rf@[i], #[trigger] ra@[i])
            },
            _ => after.1 == before.1,
        }
    } else {
        after.1 == before.1
    }
}

/// How the whole document is rewritten: an object has each top-level field
/// rewritten as `top_entry_transformed` says; anything else is untouched.
pub open spec fn doc_transformed(before: JsonValue, after: JsonValue) -> bool {
    match before {
        JsonValue::Obj(fields) => {
            &&& after matches JsonValue::Obj(out)
            &&& out@.len() == fields@.len()
            &&& forall|i: int|
                0 <= i < fields@.len() ==> top_entry_transformed(fields@[i], #[trigger] out@[i])
        },
        _ => after == before,
    }
}

/// Whether some top-level field binds `results` to an object.
pub open spec fn has_results_obj(fields: Seq<(String, JsonValue)>) -> bool {
    exists|i: int|
        0 <= i < fields.len() && (#[trigger] fields[i]).0@ == "results"@ && fields[i].1 is Obj
}

/// A field list without a `results` binding has no `results` object either.
pub proof fn lemma_no_results_key(fields: Seq<(String, JsonValue)>)
    requires
        lookup(fields, "results"@) is None,
    ensures
        !has_results_obj(fields),
    decreases fields.len(),
{
    if fields.len() > 0 {
        lemma_no_results_key(fields.drop_first());
        assert forall|i: int|
            0 <= i < fields.len() implies !((#[trigger] fields[i]).0@ == "results"@
            && fields[i].1 is Obj) by {
            if 0 < i < fields.len() {
                assert(fields.drop_first()[i - 1] == fields[i]);
            }
        }
    }
}

fn has_results_obj_exec(fields: &Vec<(String, JsonValue)>) -> (r: bool)
    ensures
        r == has_results_obj(fields@),
{
    let n = fields.len();
    let mut i: usize = 0;
    while i < n
        invariant
            n == fields@.len(),
            i <= n,
            forall|j: int|
                0 <= j < i ==> !((#[trigger] fields@[j]).0@ == "results"@ && fields@[j].1 is Obj),
        decreases n - i,
    {
        let is_results = str_eq(fields[i].0.as_str(), "results");
        let is_obj = match &fields[i].1 {
            JsonValue::Obj(_) => true,
            _ => false,
        };
        if is_results && is_obj {
            return true;
        }
        i = i + 1;
    }
    false
}

fn transform_results_fields(fields: Vec<(String, JsonValue)>) -> (out: Vec<(String, JsonValue)>)
    ensures
        out@.len() == fields@.len(),
        forall|i: int| 0 <= i < fields@.len() ==> entry_transformed(fields@[i], #[trigger] out@[i]),
{
    let ghost orig = fields@;
    let mut rest = fields;
    let mut out: Vec<(String, JsonValue)> = Vec::new();
    while rest.len() > 0
        invariant
            out@.len() + rest@.len() == orig.len(),
            rest@ =~= orig.subrange(out@.len() as int, orig.len() as int),
            forall|i: int| 0 <= i < out@.len() ==> entry_transformed(orig[i], #[trigger] out@[i]),
        decreases rest@.len(),
    {
        let (key, value) = rest.remove(0);
        proof {
            assert(orig[out@.len() as int] == (key, value));
        }
        let new_value: JsonValue = match value {
            JsonValue::Text(s) => {
                if is_time_field_name(key.as_str()) {
                    match convert_to_24_hour(s.as_str()) {
                        Some(t) => JsonValue::Text(t),
                        None => JsonValue::Null,
                    }
                } else {
                    JsonValue::Text(s)
                }
            },
            v => v,
        };
        out.push((key, new_value));
    }
    out
}

/// Rewrites the time fields of the document's `results` object to 24-hour
/// form. A document that is not an object, or that binds no `results` field
/// to an object, comes back exactly as it went in.
pub fn transform_payload(doc: JsonValue) -> (r: JsonValue)
    ensures
        doc_transformed(doc, r),
        !(doc matches JsonValue::Obj(fields) && has_results_obj(fields@)) ==> r == doc,
{
    match doc {
        JsonValue::Obj(fields) => {
            if !has_results_obj_exec(&fields) {
                return JsonValue::Obj(fields);
            }
            let ghost orig = fields@;
            let mut rest = fields;
            let mut out: Vec<(String, JsonValue)> = Vec::new();
            while rest.len() > 0
                invariant
                    out@.len() + rest@.len() == orig.len(),
                    rest@ =~= orig.subrange(out@.len() as int, orig.len() as int),
                    forall|i: int|
                        0 <= i < out@.len() ==> top_entry_transformed(orig[i], #[trigger] out@[i]),
                decreases rest@.len(),
            {
                let (key, value) = rest.remove(0);
                proof {
                    assert(orig[out@.len() as int] == (key, value));
                }
                let is_results = str_eq(key.as_str(), "results");
                let new_value: JsonValue = if is_results {
                    match value {
                        JsonValue::Obj(rf) => JsonValue::Obj(transform_results_fields(rf)),
                        v => v,
                    }
                } else {
                    value
                };
                out.push((key, new_value));
            }
            JsonValue::Obj(out)
        },
        other => other,
    }
}

} // verus!
