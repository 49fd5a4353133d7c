//! Laws that relate the operations on a payload to each other.

use vstd::prelude::*;
use vstd::std_specs::cmp::PartialEqSpec;
use crate::convert::text_of;
use crate::equality::same_content;
use crate::json::{json_string, parsed_json, promote, promote_all, same_value};
use crate::payload::{Content, Payload};

verus! {

/// A string that is valid JSON is promoted to the value it parses to, so the
/// payload built from it holds exactly that value.
pub proof fn valid_text_is_parsed(text: Seq<char>)
    requires
        parsed_json(text).is_some(),
    ensures
        promote(text) == parsed_json(text).unwrap(),
        text_of(seq![promote(text)]) == text_of(seq![parsed_json(text).unwrap()]),
{
}

/// A string that is not valid JSON is promoted to itself as a JSON string
/// value, so the payload built from it holds the string unchanged.
pub proof fn invalid_text_is_kept(text: Seq<char>)
    requires
        parsed_json(text).is_none(),
    ensures
        promote(text) == json_string(text),
        text_of(seq![promote(text)]) == text_of(seq![json_string(text)]),
{
}

/// Promoting a sequence of strings gives one value for each string, in the
/// same order, and each value depends on its own string alone.
pub proof fn promotion_is_elementwise(texts: Seq<String>)
    ensures
        promote_all(texts).len() == texts.len(),
        forall|i: int| 0 <= i < texts.len() ==> #[trigger] promote_all(texts)[i] == promote(texts[i]@),
{
}

/// After attaching an id, reading it gives exactly that id, and variant and
/// content are those of the payload before.
pub proof fn attach_then_read(payload: Payload, id: i32)
    ensures
        payload.with_id(Some(id))@.ack_id == Some(id),
        payload.with_id(Some(id))@.content == payload@.content,
{
}

/// Setting an id and then clearing it leaves no id, whatever was there
/// before, and is the same as clearing at once.
pub proof fn clear_after_set(payload: Payload, id: i32)
    ensures
        payload.with_id(Some(id)).with_id(None)@.ack_id == None::<i32>,
        payload.with_id(Some(id)).with_id(None) == payload.with_id(None),
{
}

/// Clearing twice is the same as clearing once.
pub proof fn clear_is_idempotent(payload: Payload)
    ensures
        payload.with_id(None).with_id(None) == payload.with_id(None),
{
}

/// The content of a payload does not depend on its acknowledgment id: any
/// change of the id leaves variant and content as they were.
pub proof fn content_ignores_ack_id(payload: Payload, id: Option<i32>)
    ensures
        payload.with_id(id)@.content == payload@.content,
        payload.with_id(id).content() == payload.content(),
{
}

/// Two payloads with the same content and the same id compare equal.
pub proof fn equal_when_same(left: Payload, right: Payload)
    requires
        left@ == right@,
    ensures
        left.eq_spec(&right),
{
}

/// Two text payloads over the same values with the same id compare equal.
pub proof fn equal_text_payloads(values: Seq<serde_json::Value>, id: Option<i32>, left: Payload, right: Payload)
    requires
        left@.content == Content::Text(values),
        right@.content == Content::Text(values),
        left@.ack_id == id,
        right@.ack_id == id,
    ensures
        left.eq_spec(&right),
{
}

/// Payloads with different ids compare unequal, whatever they hold.
pub proof fn unequal_when_ids_differ(left: Payload, right: Payload)
    requires
        left@.ack_id != right@.ack_id,
    ensures
        !left.eq_spec(&right),
{
}

/// Payloads whose contents do not compare equal are unequal, whatever their
/// ids.
pub proof fn unequal_when_contents_differ(left: Payload, right: Payload)
    requires
        !same_content(left@.content, right@.content),
    ensures
        !left.eq_spec(&right),
{
}

/// Contents of different variants never compare equal, binary and string
/// contents compare equal only where they hold the same data, and text
/// contents differ once their lengths differ or one place holds values that
/// do not compare equal.
pub proof fn contents_that_differ(left: Content, right: Content)
    ensures
        (left is Binary) != (right is Binary) ==> !same_content(left, right),
        (left is Text) != (right is Text) ==> !same_content(left, right),
        (left is String) != (right is String) ==> !same_content(left, right),
        !(left is Text) && left != right ==> !same_content(left, right),
        left matches Content::Text(a) && right matches Content::Text(b) && a.len() != b.len()
            ==> !same_content(left, right),
        left matches Content::Text(a) && right matches Content::Text(b) && (exists|i: int|
            0 <= i < a.len() && i < b.len() && !same_value(a[i], b[i])) ==> !same_content(
            left,
            right,
        ),
{
}

} // verus!
