//! JSON values as `serde_json` holds them, and the rule that turns a raw
//! string into one.

use vstd::prelude::*;

verus! {

/// A JSON value. Verified code carries it and never looks inside.
#[verifier::external_type_specification]
#[verifier::external_body]
pub struct ExValue(serde_json::Value);

/// The error of a failed parse. Verified code only tells it from success.
#[verifier::external_type_specification]
#[verifier::external_body]
pub struct ExJsonError(serde_json::Error);

/// What `serde_json::from_str` makes of `text` read as one JSON document:
/// the value it stands for, or `None` where the parser rejects `text`.
pub uninterp spec fn parsed_json(text: Seq<char>) -> Option<serde_json::Value>;

/// The JSON string value that holds exactly `text`.
pub uninterp spec fn json_string(text: Seq<char>) -> serde_json::Value;

/// What `==` of `serde_json::Value` answers for two values.
pub uninterp spec fn json_eq(left: serde_json::Value, right: serde_json::Value) -> bool;

/// Whether two JSON values compare equal. A value always equals itself.
pub open spec fn same_value(left: serde_json::Value, right: serde_json::Value) -> bool {
    left == right || json_eq(left, right)
}

/// Whether two sequences of JSON values have one length and compare equal
/// place by place.
pub open spec fn same_values(left: Seq<serde_json::Value>, right: Seq<serde_json::Value>) -> bool {
    &&& left.len() == right.len()
    &&& forall|i: int| 0 <= i < left.len() ==> same_value(#[trigger] left[i], right[i])
}

/// The value a raw string is promoted to: what it parses to where it is valid
/// JSON, and otherwise the string itself as a JSON string value.
pub open spec fn promote(text: Seq<char>) -> serde_json::Value {
    match parsed_json(text) {
        Some(value) => value,
        None => json_string(text),
    }
}

/// Each string of `texts` promoted on its own, in the same order.
pub open spec fn promote_all(texts: Seq<String>) -> Seq<serde_json::Value> {
    Seq::new(texts.len(), |i: int| promote(texts[i]@))
}

/// `Value::clone`. Trusted: the clone is the same JSON value.
pub assume_specification[ <serde_json::Value as Clone>::clone ](value: &serde_json::Value) -> (copy:
    serde_json::Value)
    ensures
        copy == *value,
;

/// Calls `serde_json::from_str` at type `Value`. Trusted: whether the parse
/// succeeds, and the value it gives, depend on the text alone.
#[verifier::external_body]
pub(crate) fn parse_json(text: &str) -> (parsed: Result<serde_json::Value, serde_json::Error>)
    ensures
        match parsed {
            Ok(value) => parsed_json(text@) == Some(value),
            Err(_) => parsed_json(text@).is_none(),
        },
{
    serde_json::from_str::<serde_json::Value>(text)
}

/// Builds `serde_json::Value::String`. Trusted: the result is the JSON string
/// value that holds the given text unchanged.
#[verifier::external_body]
pub(crate) fn string_value(text: String) -> (value: serde_json::Value)
    ensures
        value == json_string(text@),
{
    serde_json::Value::String(text)
}

/// Calls `==` of `serde_json::Value`. Trusted: the answer depends on the two
/// values alone, and a value equals itself, as its `Eq` promises.
#[verifier::external_body]
pub(crate) fn value_eq(left: &serde_json::Value, right: &serde_json::Value) -> (same: bool)
    ensures
        same == (*left == *right || json_eq(*left, *right)),
{
    left.eq(right)
}

/// Compares two vectors of JSON values place by place.
pub fn values_eq(left: &Vec<serde_json::Value>, right: &Vec<serde_json::Value>) -> (same: bool)
    ensures
        same == same_values(left@, right@),
{
    if left.len() != right.len() {
        return false;
    }
    let mut i: usize = 0;
    while i < left.len()
        invariant
            left.len() == right.len(),
            i <= left.len(),
            forall|j: int| 0 <= j < i ==> same_value(#[trigger] left@[j], right@[j]),
        decreases left.len() - i,
    {
        if !value_eq(&left[i], &right[i]) {
            return false;
        }
        i = i + 1;
    }
    true
}

/// Settles a promotion once the parse is known: the parsed value where there
/// is one, else `raw` wrapped as a JSON string value.
pub fn value_or_string(parsed: Result<serde_json::Value, serde_json::Error>, raw: String) -> (value:
    serde_json::Value)
    ensures
        value == match parsed {
            Ok(v) => v,
            Err(_) => json_string(raw@),
        },
{
    match parsed {
        Ok(v) => v,
        Err(_) => string_value(raw),
    }
}

} // verus!
