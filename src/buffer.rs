//! The growable byte buffer of the bytes crate, as this library uses it.

use vstd::prelude::*;
use bytes::BufMut;
use bytes::BytesMut;

verus! {

#[verifier::external_type_specification]
#[verifier::external_body]
pub struct ExBytesMut(BytesMut);

/// The bytes that a buffer holds, in order.
pub uninterp spec fn buffer_contents(b: BytesMut) -> Seq<u8>;

/// Relies on bytes::BytesMut::with_capacity: a new buffer holds no bytes.
#[verifier::external_body]
pub(crate) fn new_buffer(capacity: usize) -> (r: BytesMut)
    ensures
        buffer_contents(r) == Seq::<u8>::empty(),
{
    BytesMut::with_capacity(capacity)
}

/// Relies on BufMut::put_slice for BytesMut: the bytes of `src` are appended.
/// Growing the buffer may double its capacity, which must stay within
/// `isize`; hence the bound on the new length.
#[verifier::external_body]
pub(crate) fn put_bytes(buf: &mut BytesMut, src: &[u8])
    requires
        buffer_contents(*old(buf)).len() + src@.len() <= isize::MAX / 2,
    ensures
        buffer_contents(*final(buf)) == buffer_contents(*old(buf)) + src@,
{
    buf.put_slice(src)
}

/// Relies on BytesMut's `Deref` to `[u8]`: the slice of the bytes held.
#[verifier::external_body]
pub(crate) fn buffer_bytes(buf: &BytesMut) -> (r: &[u8])
    ensures
        r@ == buffer_contents(*buf),
{
    &buf[..]
}

/// Relies on bytes::BytesMut::freeze: the frozen bytes, copied into a vector.
#[verifier::external_body]
pub(crate) fn buffer_into_vec(buf: BytesMut) -> (r: Vec<u8>)
    ensures
        r@ == buffer_contents(buf),
{
    buf.freeze().to_vec()
}

} // verus!
