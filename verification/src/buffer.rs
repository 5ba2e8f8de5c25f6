//! Trusted view of the outside byte buffer that the codec reads and fills.
//!
//! The receive and send buffers of a framed stream are `bytes::BytesMut`
//! values. Verus sees that type as opaque, so its contents are given a name,
//! `bytes_view`, and each method the codec's logic calls is wrapped with a
//! contract stated over that name.

use vstd::prelude::*;

verus! {

#[verifier::external_type_specification]
#[verifier::external_body]
pub struct ExBytesMut(bytes::BytesMut);

/// The bytes a `bytes::BytesMut` currently holds, in order.
pub uninterp spec fn bytes_view(b: bytes::BytesMut) -> Seq<u8>;

/// Relies on `bytes::BytesMut::new`: creates an empty buffer.
#[verifier::external_body]
pub fn bytes_mut_new() -> (r: bytes::BytesMut)
    ensures
        bytes_view(r) == Seq::<u8>::empty(),
{
    bytes::BytesMut::new()
}

/// Relies on `<bytes::BytesMut as core::ops::Deref>::deref`: a slice of all
/// bytes the buffer holds.
#[verifier::external_body]
pub fn bytes_mut_as_slice(b: &bytes::BytesMut) -> (r: &[u8])
    ensures
        r@ == bytes_view(*b),
{
    &*b
}

/// Relies on `bytes::BytesMut::extend_from_slice`: reserves spare capacity
/// for the new bytes if the buffer is short of it, then appends them.
#[verifier::external_body]
pub fn bytes_mut_extend(b: &mut bytes::BytesMut, src: &[u8])
    ensures
        bytes_view(*final(b)) == bytes_view(*old(b)) + src@,
{
    b.extend_from_slice(src)
}

} // verus!
