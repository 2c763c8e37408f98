//! The byte buffers in which messages travel.

use bytes::Bytes;
use vstd::prelude::*;

verus! {

/// `bytes::Bytes`, a cheaply shared sequence of bytes.
#[verifier::external_type_specification]
#[verifier::external_body]
pub struct ExBytes(bytes::Bytes);

/// The bytes that a buffer holds, in order: the slice to which it dereferences.
pub uninterp spec fn contents(buffer: Bytes) -> Seq<u8>;

/// Calls `to_vec` on the slice to which a `Bytes` dereferences. What is claimed of it: the
/// vector holds the bytes of the buffer, in order.
#[verifier::external_body]
pub(crate) fn bytes_to_vec(buffer: &Bytes) -> (vec: Vec<u8>)
    ensures
        vec@ == contents(*buffer),
{
    buffer.to_vec()
}

/// Calls `Bytes::from` on a vector. What is claimed of it: the buffer holds the bytes of
/// the vector, in order.
#[verifier::external_body]
pub(crate) fn bytes_from_vec(vec: Vec<u8>) -> (buffer: Bytes)
    ensures
        contents(buffer) == vec@,
{
    Bytes::from(vec)
}

/// A message on the wire between nodes: an encoded value.
#[derive(Debug, PartialEq, Eq)]
pub struct BincodeEncodedPayload {
    pub payload: Bytes,
}

impl View for BincodeEncodedPayload {
    type V = Seq<u8>;

    open spec fn view(&self) -> Seq<u8> {
        contents(self.payload)
    }
}

/// A transaction on the wire from a client.
#[derive(Debug, PartialEq, Eq)]
pub struct TransactionProto {
    pub transaction: Bytes,
}

impl View for TransactionProto {
    type V = Seq<u8>;

    open spec fn view(&self) -> Seq<u8> {
        contents(self.transaction)
    }
}

} // verus!
