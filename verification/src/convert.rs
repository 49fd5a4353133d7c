//! Building a payload from strings, JSON values and bytes. Every conversion
//! is total and leaves the acknowledgment id unset.

use vstd::prelude::*;
use vstd::std_specs::convert::FromSpecImpl;
use crate::binary::{bytes_from_static, bytes_from_vec};
use crate::json::{json_string, parsed_json, promote, promote_all};
use crate::payload::{Content, Payload, PayloadModel};

verus! {

/// The model of a fresh text payload that holds `values`.
pub open spec fn text_of(values: Seq<serde_json::Value>) -> PayloadModel {
    PayloadModel { content: Content::Text(values), ack_id: None }
}

/// The model of a fresh binary payload that holds `data`.
pub open spec fn binary_of(data: Seq<u8>) -> PayloadModel {
    PayloadModel { content: Content::Binary(data), ack_id: None }
}

/// std's conversion of a value to its own type. Trusted: as std documents,
/// it hands the value back unchanged.
pub assume_specification<U>[ <U as From<U>>::from ](value: U) -> (same: U)
    ensures
        same == value,
;

impl From<String> for Payload {
    /// A text payload of one element: the string, promoted.
    fn from(string: String) -> (payload: Payload)
        ensures
            payload@ == text_of(seq![promote(string@)]),
            parsed_json(string@) matches Some(value) ==> payload@ == text_of(seq![value]),
            parsed_json(string@).is_none() ==> payload@ == text_of(seq![json_string(string@)]),
    {
        let value = Payload::string_to_value(string);
        let mut values: Vec<serde_json::Value> = Vec::new();
        values.push(value);
        assert(values@ =~= seq![value]);
        Payload::Text(values, None)
    }
}

impl FromSpecImpl<String> for Payload {
    open spec fn obeys_from_spec() -> bool {
        false
    }

    open spec fn from_spec(string: String) -> Payload {
        arbitrary()
    }
}

impl<'a> From<&'a str> for Payload {
    /// A text payload of one element: the string, promoted.
    fn from(string: &'a str) -> (payload: Payload)
        ensures
            payload@ == text_of(seq![promote(string@)]),
            parsed_json(string@) matches Some(value) ==> payload@ == text_of(seq![value]),
            parsed_json(string@).is_none() ==> payload@ == text_of(seq![json_string(string@)]),
    {
        Payload::from(string.to_owned())
    }
}

impl<'a> FromSpecImpl<&'a str> for Payload {
    open spec fn obeys_from_spec() -> bool {
        false
    }

    open spec fn from_spec(string: &'a str) -> Payload {
        arbitrary()
    }
}

impl From<Vec<String>> for Payload {
    /// A text payload with one element for each string, in the same order,
    /// each promoted on its own.
    fn from(arr: Vec<String>) -> (payload: Payload)
        ensures
            payload@ == text_of(promote_all(arr@)),
    {
        let ghost texts = arr@;
        let mut values: Vec<serde_json::Value> = Vec::new();
        for string in iter: arr
            invariant
                iter.seq() == texts,
                values.len() == iter.index(),
                forall|j: int| 0 <= j < values.len() ==> values@[j] == promote(#[trigger] texts[j]@),
        {
            values.push(Payload::string_to_value(string));
        }
        assert(values@ =~= promote_all(texts));
        Payload::Text(values, None)
    }
}

impl FromSpecImpl<Vec<String>> for Payload {
    open spec fn obeys_from_spec() -> bool {
        false
    }

    open spec fn from_spec(arr: Vec<String>) -> Payload {
        arbitrary()
    }
}

impl From<Vec<serde_json::Value>> for Payload {
    /// A text payload that holds the values as they are.
    fn from(values: Vec<serde_json::Value>) -> (payload: Payload)
        ensures
            payload == Payload::Text(values, None),
            payload@ == text_of(values@),
    {
        Payload::Text(values, None)
    }
}

impl FromSpecImpl<Vec<serde_json::Value>> for Payload {
    open spec fn obeys_from_spec() -> bool {
        true
    }

    open spec fn from_spec(values: Vec<serde_json::Value>) -> Payload {
        Payload::Text(values, None)
    }
}

impl From<serde_json::Value> for Payload {
    /// A text payload of one element: the value as it is.
    fn from(value: serde_json::Value) -> (payload: Payload)
        ensures
            payload@ == text_of(seq![value]),
    {
        let mut values: Vec<serde_json::Value> = Vec::new();
        values.push(value);
        assert(values@ =~= seq![value]);
        Payload::Text(values, None)
    }
}

impl FromSpecImpl<serde_json::Value> for Payload {
    open spec fn obeys_from_spec() -> bool {
        false
    }

    open spec fn from_spec(value: serde_json::Value) -> Payload {
        arbitrary()
    }
}

impl From<Vec<u8>> for Payload {
    /// A binary payload that holds the bytes as they are.
    fn from(val: Vec<u8>) -> (payload: Payload)
        ensures
            payload@ == binary_of(val@),
    {
        Payload::Binary(bytes_from_vec(val), None)
    }
}

impl FromSpecImpl<Vec<u8>> for Payload {
    open spec fn obeys_from_spec() -> bool {
        false
    }

    open spec fn from_spec(val: Vec<u8>) -> Payload {
        arbitrary()
    }
}

impl From<&'static [u8]> for Payload {
    /// A binary payload that holds the bytes as they are.
    fn from(val: &'static [u8]) -> (payload: Payload)
        ensures
            payload@ == binary_of(val@),
    {
        Payload::Binary(bytes_from_static(val), None)
    }
}

impl FromSpecImpl<&'static [u8]> for Payload {
    open spec fn obeys_from_spec() -> bool {
        false
    }

    open spec fn from_spec(val: &'static [u8]) -> Payload {
        arbitrary()
    }
}

impl From<bytes::Bytes> for Payload {
    /// A binary payload that holds the buffer itself.
    fn from(bytes: bytes::Bytes) -> (payload: Payload)
        ensures
            payload == Payload::Binary(bytes, None),
            payload@ == binary_of(crate::binary::bytes_of(bytes)),
    {
        Payload::Binary(bytes, None)
    }
}

impl FromSpecImpl<bytes::Bytes> for Payload {
    open spec fn obeys_from_spec() -> bool {
        true
    }

    open spec fn from_spec(bytes: bytes::Bytes) -> Payload {
        Payload::Binary(bytes, None)
    }
}

} // verus!
