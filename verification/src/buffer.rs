//! The reference-counted byte buffers of the `bytes` crate.

use bytes::Bytes;
use vstd::prelude::*;

verus! {

/// `bytes::Bytes`, a cheaply cloneable and immutable run of bytes.
#[verifier::external_type_specification]
#[verifier::external_body]
pub struct ExBytes(bytes::Bytes);

/// The bytes that a buffer holds.
pub uninterp spec fn bytes_contents(buffer: Bytes) -> Seq<u8>;

/// `Bytes::len`: the number of bytes in the buffer.
pub assume_specification[ Bytes::len ](buffer: &Bytes) -> (len: usize)
    ensures
        len == bytes_contents(*buffer).len(),
;

/// `Bytes::split_to`: takes the first `at` bytes off the buffer and returns them; the buffer keeps
/// what follows. It panics where the buffer is shorter than `at`.
pub assume_specification[ Bytes::split_to ](buffer: &mut Bytes, at: usize) -> (head: Bytes)
    requires
        at <= bytes_contents(*old(buffer)).len(),
    ensures
        bytes_contents(head) == bytes_contents(*old(buffer)).take(at as int),
        bytes_contents(*final(buffer)) == bytes_contents(*old(buffer)).skip(at as int),
;

/// `Bytes::from_owner` on a vector: a buffer that holds the vector's bytes.
#[verifier::external_body]
pub(crate) fn bytes_from_owner(owner: Vec<u8>) -> (buffer: Bytes)
    ensures
        bytes_contents(buffer) == owner@,
{
    Bytes::from_owner(owner)
}

/// `Bytes::as_ref`: the bytes of the buffer, borrowed.
#[verifier::external_body]
pub(crate) fn bytes_as_ref(buffer: &Bytes) -> (slice: &[u8])
    ensures
        slice@ == bytes_contents(*buffer),
{
    buffer.as_ref()
}

} // verus!
