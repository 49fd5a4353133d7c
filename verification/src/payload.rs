//! The payload type, its content view and the acknowledgment id.

use vstd::prelude::*;
use crate::binary::bytes_of;
use crate::json::{json_string, parse_json, parsed_json, promote, value_or_string};

verus! {

/// What a payload carries, without its acknowledgment id.
pub enum Content {
    Binary(Seq<u8>),
    Text(Seq<serde_json::Value>),
    String(Seq<char>),
}

/// The mathematical value of a payload.
pub struct PayloadModel {
    pub content: Content,
    pub ack_id: Option<i32>,
}

/// One message unit. The `Option<i32>` of each variant is the acknowledgment
/// id, `None` until one is attached.
#[derive(Debug)]
pub enum Payload {
    Binary(bytes::Bytes, Option<i32>),
    Text(Vec<serde_json::Value>, Option<i32>),
    /// Deprecated: a raw string, kept for callers of the older interface.
    /// Use `Text` instead; `Payload::from` on a string builds one.
    String(String, Option<i32>),
}

/// A borrowed look at a payload's content. It has no acknowledgment id.
#[derive(Debug)]
pub enum PayloadData<'a> {
    Binary(&'a bytes::Bytes),
    Text(&'a Vec<serde_json::Value>),
    String(&'a String),
}

impl Payload {
    /// The acknowledgment id that the payload holds.
    pub open spec fn spec_ack_id(self) -> Option<i32> {
        match self {
            Payload::Binary(_, id) => id,
            Payload::Text(_, id) => id,
            Payload::String(_, id) => id,
        }
    }

    /// The content that the payload holds.
    pub open spec fn content(self) -> Content {
        match self {
            Payload::Binary(data, _) => Content::Binary(bytes_of(data)),
            Payload::Text(data, _) => Content::Text(data@),
            Payload::String(data, _) => Content::String(data@),
        }
    }

    /// The same payload with `id` in place of its acknowledgment id.
    pub open spec fn with_id(self, id: Option<i32>) -> Payload {
        match self {
            Payload::Binary(data, _) => Payload::Binary(data, id),
            Payload::Text(data, _) => Payload::Text(data, id),
            Payload::String(data, _) => Payload::String(data, id),
        }
    }
}

impl Clone for Payload {
    /// A payload of its own with the same content and acknowledgment id.
    fn clone(&self) -> (copy: Payload)
        ensures
            copy@ == self@,
    {
        match self {
            Payload::Binary(data, id) => Payload::Binary(data.clone(), *id),
            Payload::Text(data, id) => {
                let values = data.clone();
                assert(values@ =~= data@);
                Payload::Text(values, *id)
            },
            Payload::String(data, id) => Payload::String(data.clone(), *id),
        }
    }
}

impl View for Payload {
    type V = PayloadModel;

    open spec fn view(&self) -> PayloadModel {
        PayloadModel { content: self.content(), ack_id: self.spec_ack_id() }
    }
}

impl<'a> View for PayloadData<'a> {
    type V = Content;

    open spec fn view(&self) -> Content {
        match *self {
            PayloadData::Binary(data) => Content::Binary(bytes_of(*data)),
            PayloadData::Text(data) => Content::Text(data@),
            PayloadData::String(data) => Content::String(data@),
        }
    }
}

impl<'a> Clone for PayloadData<'a> {
    /// A second look at the same content.
    fn clone(&self) -> (copy: PayloadData<'a>)
        ensures
            copy == *self,
    {
        match self {
            PayloadData::Binary(data) => PayloadData::Binary(data),
            PayloadData::Text(data) => PayloadData::Text(data),
            PayloadData::String(data) => PayloadData::String(data),
        }
    }
}

impl Payload {
    /// Promotes a raw string to a JSON value: the value it parses to where it
    /// is valid JSON, else the string itself as a JSON string value. Never
    /// fails.
    pub fn string_to_value(string: String) -> (value: serde_json::Value)
        ensures
            value == promote(string@),
            parsed_json(string@) matches Some(parsed) ==> value == parsed,
            parsed_json(string@).is_none() ==> value == json_string(string@),
    {
        let parsed = parse_json(string.as_str());
        value_or_string(parsed, string)
    }

    /// Attaches an acknowledgment id to an already built payload: variant and
    /// content stay, the id becomes `Some(ack_id)`.
    pub fn attach(payload: Payload, ack_id: i32) -> (r: Payload)
        ensures
            r == payload.with_id(Some(ack_id)),
            r@.content == payload@.content,
            r@.ack_id == Some(ack_id),
    {
        match payload {
            Payload::Binary(data, _) => Payload::Binary(data, Some(ack_id)),
            Payload::Text(data, _) => Payload::Text(data, Some(ack_id)),
            Payload::String(data, _) => Payload::String(data, Some(ack_id)),
        }
    }

    /// Converts `payload` and attaches `ack_id` to the result.
    pub fn with_ack_id<T: Into<Payload>>(payload: T, ack_id: i32) -> (r: Payload)
        ensures
            exists|converted: Payload| #[trigger]
                call_ensures(T::into, (payload,), converted) && r == converted.with_id(
                    Some(ack_id),
                ),
            r@.ack_id == Some(ack_id),
    {
        let converted: Payload = payload.into();
        Payload::attach(converted, ack_id)
    }

    /// The acknowledgment id, or `None` where none is set.
    pub fn ack_id(&self) -> (id: Option<i32>)
        ensures
            id == self@.ack_id,
    {
        match self {
            Payload::Binary(_, ack_id) => *ack_id,
            Payload::Text(_, ack_id) => *ack_id,
            Payload::String(_, ack_id) => *ack_id,
        }
    }

    /// Sets or clears the acknowledgment id. The content is not touched.
    pub fn set_ack_id(&mut self, ack_id: Option<i32>)
        ensures
            *final(self) == old(self).with_id(ack_id),
            final(self)@.ack_id == ack_id,
            final(self)@.content == old(self)@.content,
    {
        match self {
            Payload::Binary(_, id) => *id = ack_id,
            Payload::Text(_, id) => *id = ack_id,
            Payload::String(_, id) => *id = ack_id,
        }
    }

    /// The content, borrowed, under the payload's own variant. The
    /// acknowledgment id is not part of it.
    pub fn data(&self) -> (view: PayloadData<'_>)
        ensures
            view@ == self@.content,
            match (*self, view) {
                (Payload::Binary(own, _), PayloadData::Binary(seen)) => *seen == own,
                (Payload::Text(own, _), PayloadData::Text(seen)) => *seen == own,
                (Payload::String(own, _), PayloadData::String(seen)) => *seen == own,
                _ => false,
            },
    {
        match self {
            Payload::Binary(data, _) => PayloadData::Binary(data),
            Payload::Text(data, _) => PayloadData::Text(data),
            Payload::String(data, _) => PayloadData::String(data),
        }
    }
}

} // verus!
