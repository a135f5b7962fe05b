//! Reading JSON documents: the strings and the arrays that a document holds,
//! each found by the pointer that leads to it. The reading is serde_json's;
//! nothing in this file is proved.

use vstd::prelude::*;

verus! {

/// `serde_json::Value`, carried as it is.
#[verifier::external_type_specification]
#[verifier::external_body]
pub struct ExJsonValue(serde_json::Value);

/// The strings that a JSON value holds, each under the JSON pointer that
/// leads to it from the value.
pub uninterp spec fn json_strings(value: serde_json::Value) -> Map<Seq<char>, Seq<char>>;

/// The lengths of the arrays that a JSON value holds, each under the JSON
/// pointer that leads to the array from the value.
pub uninterp spec fn json_lengths(value: serde_json::Value) -> Map<Seq<char>, nat>;

/// What a text holds when it is read as a JSON document: its strings and the
/// lengths of its arrays, by pointer; nothing where the text is no JSON.
pub uninterp spec fn json_document(text: Seq<char>) -> Option<
    (Map<Seq<char>, Seq<char>>, Map<Seq<char>, nat>),
>;

/// What a map holds under a key, if it holds anything there.
pub open spec fn held<V>(map: Map<Seq<char>, V>, key: Seq<char>) -> Option<V> {
    if map.contains_key(key) {
        Some(map[key])
    } else {
        None
    }
}

/// View of an optional text.
pub open spec fn found_text(t: Option<String>) -> Option<Seq<char>> {
    match t {
        Some(s) => Some(s@),
        None => None,
    }
}

/// serde_json's `from_str` into a `Value`. The value that comes back holds
/// what the text holds as a document; none comes back where serde_json
/// refuses the text.
#[verifier::external_body]
pub(crate) fn parse_json(text: &str) -> (r: Option<serde_json::Value>)
    ensures
        match r {
            Some(value) => json_document(text@) == Some((json_strings(value), json_lengths(value))),
            None => json_document(text@) is None,
        },
{
    serde_json::from_str::<serde_json::Value>(text).ok()
}

/// serde_json's `Value::pointer`, then `Value::as_str` of what is found: the
/// string to which the pointer leads, if it leads to a string.
#[verifier::external_body]
pub(crate) fn string_at(value: &serde_json::Value, pointer: &str) -> (r: Option<String>)
    ensures
        found_text(r) == held(json_strings(*value), pointer@),
{
    match value.pointer(pointer) {
        Some(found) => match found.as_str() {
            Some(s) => Some(s.to_owned()),
            None => None,
        },
        None => None,
    }
}

/// serde_json's `Value::pointer`, then `Value::as_array` of what is found and
/// the length of the array: how many elements the array has to which the
/// pointer leads, if it leads to an array.
#[verifier::external_body]
pub(crate) fn length_at(value: &serde_json::Value, pointer: &str) -> (r: Option<usize>)
    ensures
        match r {
            Some(n) => held(json_lengths(*value), pointer@) == Some(n as nat),
            None => held(json_lengths(*value), pointer@) is None,
        },
{
    match value.pointer(pointer) {
        Some(found) => match found.as_array() {
            Some(list) => Some(list.len()),
            None => None,
        },
        None => None,
    }
}

} // verus!
