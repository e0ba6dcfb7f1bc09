//! Chunks of a body, held in the reference-counted buffers of the `bytes` crate.

use bytes::Bytes;
use vstd::prelude::*;

verus! {

/// The buffer type of the `bytes` crate.
#[verifier::external_type_specification]
#[verifier::external_body]
pub struct ExBytes(bytes::Bytes);

/// The bytes that a buffer holds.
pub uninterp spec fn chunk_bytes(chunk: bytes::Bytes) -> Seq<u8>;

/// `Bytes::len` answers how many bytes the buffer holds.
pub assume_specification[ bytes::Bytes::len ](buf: &bytes::Bytes) -> (len: usize)
    ensures
        len == chunk_bytes(*buf).len(),
;

/// `Bytes::is_empty` answers whether the buffer holds no byte.
pub assume_specification[ bytes::Bytes::is_empty ](buf: &bytes::Bytes) -> (empty: bool)
    ensures
        empty == (chunk_bytes(*buf).len() == 0),
;

/// `Bytes::split_to` cuts the buffer in two: the first `at` bytes are returned, the rest
/// stays. It panics where `at` is beyond the end.
pub assume_specification[ bytes::Bytes::split_to ](buf: &mut bytes::Bytes, at: usize) -> (front:
    bytes::Bytes)
    requires
        at <= chunk_bytes(*old(buf)).len(),
    ensures
        chunk_bytes(front) == chunk_bytes(*old(buf)).take(at as int),
        chunk_bytes(*final(buf)) == chunk_bytes(*old(buf)).skip(at as int),
;

/// `Bytes::from` a vector takes the vector's bytes over.
#[verifier::external_body]
pub(crate) fn chunk_from_vec(bytes: Vec<u8>) -> (chunk: Bytes)
    ensures
        chunk_bytes(chunk) == bytes@,
{
    Bytes::from(bytes)
}

} // verus!
