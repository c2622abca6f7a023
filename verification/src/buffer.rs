//! The byte buffers of the `bytes` crate that the codecs read from and
//! write into, seen through the sequence of bytes each one holds.

use bytes::BytesMut;
use vstd::prelude::*;

verus! {

#[verifier::external_type_specification]
#[verifier::external_body]
pub struct ExBytesMut(BytesMut);

/// The bytes a `BytesMut` holds, in order.
pub uninterp spec fn buffer_contents(b: BytesMut) -> Seq<u8>;

/// An empty buffer.
///
/// Calls `BytesMut::new`, which makes a buffer of length zero.
#[verifier::external_body]
pub(crate) fn empty_buffer() -> (r: BytesMut)
    ensures
        buffer_contents(r) == Seq::<u8>::empty(),
{
    BytesMut::new()
}

/// The number of bytes in `b`.
///
/// Calls `BytesMut::len`, which returns the length of the contents.
#[verifier::external_body]
pub(crate) fn buffer_len(b: &BytesMut) -> (n: usize)
    ensures
        n == buffer_contents(*b).len(),
{
    b.len()
}

/// The bytes of `b` as a slice.
///
/// Calls `<BytesMut as Deref>::deref`, which views the contents as `[u8]`.
#[verifier::external_body]
pub(crate) fn buffer_bytes(b: &BytesMut) -> (s: &[u8])
    ensures
        s@ == buffer_contents(*b),
{
    &b[..]
}

/// Splits off the first `at` bytes of `b` and returns them.
///
/// Calls `BytesMut::split_to`, which leaves `b` holding the bytes from
/// `at` on and returns the ones before; it panics when `at` exceeds the
/// length, which `requires` rules out.
#[verifier::external_body]
pub(crate) fn split_front(b: &mut BytesMut, at: usize) -> (front: BytesMut)
    requires
        at <= buffer_contents(*old(b)).len(),
    ensures
        buffer_contents(front) == buffer_contents(*old(b)).take(at as int),
        buffer_contents(*final(b)) == buffer_contents(*old(b)).skip(at as int),
{
    b.split_to(at)
}

/// Appends the bytes of `src` to `b`.
///
/// Calls `BytesMut::extend_from_slice`, which reserves room and then copies
/// `src` after the current contents. Growing past `isize::MAX` bytes would
/// make the allocation fail, which `requires` rules out.
#[verifier::external_body]
pub(crate) fn append_bytes(b: &mut BytesMut, src: &[u8])
    requires
        buffer_contents(*old(b)).len() + src@.len() <= isize::MAX,
    ensures
        buffer_contents(*final(b)) == buffer_contents(*old(b)) + src@,
{
    b.extend_from_slice(src)
}

} // verus!
