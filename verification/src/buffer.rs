//! The byte buffer of the `bytes` crate, as far as the library fills and
//! reads it.

use vstd::prelude::*;

verus! {

#[verifier::external_type_specification]
#[verifier::external_body]
pub struct ExBytes(bytes::Bytes);

/// The bytes that a buffer holds, in order.
pub uninterp spec fn contents(buffer: bytes::Bytes) -> Seq<u8>;

/// `Bytes::from` on a vector: the buffer takes the vector over and holds its
/// bytes.
#[verifier::external_body]
pub(crate) fn from_vec(bytes: Vec<u8>) -> (buffer: bytes::Bytes)
    ensures
        contents(buffer) == bytes@,
{
    bytes::Bytes::from(bytes)
}

/// `to_vec` on the buffer's slice: a copy of the bytes it holds.
#[verifier::external_body]
pub(crate) fn to_vec(buffer: &bytes::Bytes) -> (bytes: Vec<u8>)
    ensures
        bytes@ == contents(*buffer),
{
    buffer.to_vec()
}

/// `Bytes::len`: the number of bytes that the buffer holds.
#[verifier::external_body]
pub(crate) fn len(buffer: &bytes::Bytes) -> (n: usize)
    ensures
        n == contents(*buffer).len(),
{
    buffer.len()
}

/// `Bytes::clone`: a second handle on the same bytes.
#[verifier::external_body]
pub(crate) fn share(buffer: &bytes::Bytes) -> (other: bytes::Bytes)
    ensures
        contents(other) == contents(*buffer),
{
    buffer.clone()
}

} // verus!
