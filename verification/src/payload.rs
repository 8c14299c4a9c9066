use vstd::prelude::*;

verus! {

/// The JSON value that serde_json builds from one string.
pub uninterp spec fn json_of_string(s: Seq<char>) -> serde_json::Value;

/// The JSON value that serde_json builds from a list of strings.
pub uninterp spec fn json_of_strings(elems: Seq<Seq<char>>) -> serde_json::Value;

/// Relies on serde_json's `From<String> for Value`: wraps one string as a
/// JSON string value. The result depends on the characters alone.
#[verifier::external_body]
pub(crate) fn json_string_value(s: String) -> (v: serde_json::Value)
    ensures
        v == json_of_string(s@),
{
    serde_json::Value::from(s)
}

/// Relies on serde_json::to_value: encodes a list of strings as a JSON array
/// of strings. Encoding strings never fails, and the result depends on the
/// elements alone.
#[verifier::external_body]
pub(crate) fn json_string_list_value(elems: Vec<String>) -> (v: serde_json::Value)
    ensures
        v == json_of_strings(elems@.map_values(|e: String| e@)),
{
    match serde_json::to_value(elems) {
        Ok(v) => v,
        Err(_) => serde_json::Value::Null,
    }
}

} // verus!
