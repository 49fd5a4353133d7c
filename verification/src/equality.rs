//! `==` on payloads and on content views: same variant, same content, and,
//! for payloads, the same acknowledgment id.

use vstd::prelude::*;
use vstd::std_specs::cmp::PartialEqSpecImpl;
use crate::binary::bytes_eq;
use crate::json::{same_values, values_eq};
use crate::payload::{Content, Payload, PayloadData};

verus! {

/// Whether two contents have one variant and hold equal data.
pub open spec fn same_content(left: Content, right: Content) -> bool {
    match (left, right) {
        (Content::Binary(a), Content::Binary(b)) => a == b,
        (Content::Text(a), Content::Text(b)) => same_values(a, b),
        (Content::String(a), Content::String(b)) => a == b,
        _ => false,
    }
}

impl<'a> PartialEq for PayloadData<'a> {
    fn eq(&self, other: &PayloadData<'a>) -> (same: bool) {
        match (self, other) {
            (PayloadData::Binary(a), PayloadData::Binary(b)) => bytes_eq(a, b),
            (PayloadData::Text(a), PayloadData::Text(b)) => values_eq(a, b),
            (PayloadData::String(a), PayloadData::String(b)) => **a == **b,
            _ => false,
        }
    }
}

impl<'a> PartialEqSpecImpl for PayloadData<'a> {
    open spec fn obeys_eq_spec() -> bool {
        true
    }

    open spec fn eq_spec(&self, other: &PayloadData<'a>) -> bool {
        same_content(self@, other@)
    }
}

impl<'a> Eq for PayloadData<'a> {

}

impl PartialEq for Payload {
    fn eq(&self, other: &Payload) -> (same: bool) {
        self.ack_id() == other.ack_id() && self.data() == other.data()
    }
}

impl PartialEqSpecImpl for Payload {
    open spec fn obeys_eq_spec() -> bool {
        true
    }

    open spec fn eq_spec(&self, other: &Payload) -> bool {
        self@.ack_id == other@.ack_id && same_content(self@.content, other@.content)
    }
}

impl Eq for Payload {

}

} // verus!
