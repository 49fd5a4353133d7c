//! Byte buffers as the `bytes` crate holds them.

use vstd::prelude::*;

verus! {

/// A cheaply cloneable, immutable byte buffer.
#[verifier::external_type_specification]
#[verifier::external_body]
pub struct ExBytes(bytes::Bytes);

/// The bytes that a buffer holds, in order.
pub uninterp spec fn bytes_of(buffer: bytes::Bytes) -> Seq<u8>;

/// `Bytes::clone`. Trusted: the clone holds the same bytes as the buffer it
/// was made from.
pub assume_specification[ <bytes::Bytes as Clone>::clone ](buffer: &bytes::Bytes) -> (copy:
    bytes::Bytes)
    ensures
        bytes_of(copy) == bytes_of(*buffer),
;

/// Calls `Bytes::from` on a vector. Trusted: the buffer holds the vector's
/// bytes, unchanged and in order.
#[verifier::external_body]
pub(crate) fn bytes_from_vec(data: Vec<u8>) -> (buffer: bytes::Bytes)
    ensures
        bytes_of(buffer) == data@,
{
    bytes::Bytes::from(data)
}

/// Calls `Bytes::from_static`. Trusted: the buffer holds the slice's bytes,
/// unchanged and in order.
#[verifier::external_body]
pub(crate) fn bytes_from_static(data: &'static [u8]) -> (buffer: bytes::Bytes)
    ensures
        bytes_of(buffer) == data@,
{
    bytes::Bytes::from_static(data)
}

/// Calls `==` of `Bytes`. Trusted: two buffers are equal exactly where they
/// hold the same bytes.
#[verifier::external_body]
pub(crate) fn bytes_eq(left: &bytes::Bytes, right: &bytes::Bytes) -> (same: bool)
    ensures
        same == (bytes_of(*left) == bytes_of(*right)),
{
    left.eq(right)
}

} // verus!
