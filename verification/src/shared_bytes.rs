//! The reference-counted byte buffer that carries frame payloads and encoded
//! samples between the producer and its consumers.
use bytes::Bytes;
use vstd::prelude::*;

verus! {

/// `bytes::Bytes`, a handle on shared bytes. What it holds is spoken of
/// through `contents`.
#[verifier::external_type_specification]
#[verifier::external_body]
pub struct ExBytes(bytes::Bytes);

/// The bytes that a buffer holds, in order.
pub uninterp spec fn contents(buffer: Bytes) -> Seq<u8>;

/// `Bytes::from(Vec<u8>)`: takes ownership of the vector; the buffer holds
/// exactly the vector's bytes.
#[verifier::external_body]
pub(crate) fn bytes_from_vec(bytes: Vec<u8>) -> (buffer: Bytes)
    ensures
        contents(buffer) == bytes@,
{
    Bytes::from(bytes)
}

/// `Bytes::as_ref`: the buffer's bytes as a slice.
#[verifier::external_body]
pub(crate) fn bytes_as_slice(buffer: &Bytes) -> (slice: &[u8])
    ensures
        slice@ == contents(*buffer),
{
    buffer.as_ref()
}

/// `Bytes::clone`: another handle on the same shared bytes.
pub assume_specification[ <Bytes as Clone>::clone ](buffer: &Bytes) -> (copy: Bytes)
    ensures
        contents(copy) == contents(*buffer),
;

} // verus!
