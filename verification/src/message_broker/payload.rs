//! The `bytes::Bytes` buffers that the broker stores and hands out.
use vstd::prelude::*;

verus! {

/// `bytes::Bytes`, carried through the library as an opaque value.
#[verifier::external_type_specification]
#[verifier::external_body]
pub struct ExBytes(bytes::Bytes);

/// The bytes that a `bytes::Bytes` buffer holds, in order.
pub uninterp spec fn bytes_contents(b: bytes::Bytes) -> Seq<u8>;

/// Calls `<bytes::Bytes as From<Vec<u8>>>::from`. The crate's source builds the
/// buffer over the vector's own allocation (pointer and length), so the buffer
/// holds exactly the vector's bytes.
#[verifier::external_body]
pub(crate) fn bytes_from_vec(v: Vec<u8>) -> (b: bytes::Bytes)
    ensures
        bytes_contents(b) == v@,
{
    bytes::Bytes::from(v)
}

/// Calls `to_vec` on the slice that `bytes::Bytes` dereferences to
/// (`Bytes::as_slice`): a fresh vector with the buffer's bytes.
#[verifier::external_body]
pub(crate) fn bytes_to_vec(b: &bytes::Bytes) -> (v: Vec<u8>)
    ensures
        v@ == bytes_contents(*b),
{
    b.to_vec()
}

} // verus!
