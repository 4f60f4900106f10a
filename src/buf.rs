//! Byte buffers of the `bytes` crate, as the encoder uses them.
use bytes::{BufMut, Bytes, BytesMut};
use vstd::prelude::*;

verus! {

#[verifier::external_type_specification]
#[verifier::external_body]
pub struct ExBytes(Bytes);

#[verifier::external_type_specification]
#[verifier::external_body]
pub struct ExBytesMut(BytesMut);

/// The bytes that a frozen buffer holds.
pub uninterp spec fn bytes_contents(b: Bytes) -> Seq<u8>;

/// The bytes that a growable buffer holds.
pub uninterp spec fn bytes_mut_contents(b: BytesMut) -> Seq<u8>;

/// Relies on `BytesMut::with_capacity`: the new buffer is empty.
#[verifier::external_body]
pub(crate) fn new_buffer(capacity: usize) -> (r: BytesMut)
    ensures
        bytes_mut_contents(r) == Seq::<u8>::empty(),
{
    BytesMut::with_capacity(capacity)
}

/// Relies on `BufMut::put_slice` of `BytesMut`: the slice is appended. It
/// panics when the new length overflows, which `requires` leaves out.
#[verifier::external_body]
pub(crate) fn put_slice(b: &mut BytesMut, s: &[u8])
    requires
        bytes_mut_contents(*old(b)).len() + s@.len() <= isize::MAX,
    ensures
        bytes_mut_contents(*final(b)) == bytes_mut_contents(*old(b)) + s@,
{
    b.put_slice(s)
}

/// Relies on `BufMut::put_u8` of `BytesMut`: the byte is appended.
#[verifier::external_body]
pub(crate) fn put_u8(b: &mut BytesMut, n: u8)
    requires
        bytes_mut_contents(*old(b)).len() + 1 <= isize::MAX,
    ensures
        bytes_mut_contents(*final(b)) == bytes_mut_contents(*old(b)).push(n),
{
    b.put_u8(n)
}

/// Relies on `BufMut::put_u16_le` of `BytesMut`: the two bytes of `n`, least
/// significant first, are appended.
#[verifier::external_body]
pub(crate) fn put_u16_le(b: &mut BytesMut, n: u16)
    requires
        bytes_mut_contents(*old(b)).len() + 2 <= isize::MAX,
    ensures
        bytes_mut_contents(*final(b)) == bytes_mut_contents(*old(b)) + seq![
            n as u8,
            (n >> 8u16) as u8,
        ],
{
    b.put_u16_le(n)
}

/// Relies on `BufMut::put_i32_le` of `BytesMut`: the four bytes of `n`, least
/// significant first, are appended.
#[verifier::external_body]
pub(crate) fn put_i32_le(b: &mut BytesMut, n: i32)
    requires
        bytes_mut_contents(*old(b)).len() + 4 <= isize::MAX,
    ensures
        bytes_mut_contents(*final(b)) == bytes_mut_contents(*old(b)) + seq![
            n as u8,
            (n >> 8i32) as u8,
            (n >> 16i32) as u8,
            (n >> 24i32) as u8,
        ],
{
    b.put_i32_le(n)
}

/// Relies on `BytesMut::freeze`: the frozen buffer holds the same bytes.
#[verifier::external_body]
pub(crate) fn freeze(b: BytesMut) -> (r: Bytes)
    ensures
        bytes_contents(r) == bytes_mut_contents(b),
{
    b.freeze()
}

} // verus!
