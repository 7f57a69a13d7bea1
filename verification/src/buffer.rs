//! The byte buffers of the `bytes` crate, as far as the record is built and
//! encrypted in them. Verus does not read that crate: what is said here of
//! its functions is taken on trust from its source.

use bytes::{BufMut, Bytes, BytesMut};
use vstd::prelude::*;

verus! {

/// `bytes::BytesMut`, a buffer of bytes that grows. Nothing of its inside is
/// known here but the bytes it holds.
#[verifier::external_type_specification]
#[verifier::external_body]
pub struct ExBytesMut(bytes::BytesMut);

/// `bytes::Bytes`, a buffer of bytes that does not change any more.
#[verifier::external_type_specification]
#[verifier::external_body]
pub struct ExBytes(bytes::Bytes);

/// The bytes that a `BytesMut` holds, from the first to the last.
pub uninterp spec fn bytes_mut_view(buf: BytesMut) -> Seq<u8>;

/// The bytes that a `Bytes` holds, from the first to the last.
pub uninterp spec fn bytes_view(buf: Bytes) -> Seq<u8>;

/// `BytesMut::with_capacity`: a buffer that holds no bytes yet. The call
/// allocates through `Vec::with_capacity`, which panics above `isize::MAX`.
pub assume_specification[ BytesMut::with_capacity ](capacity: usize) -> (buf: BytesMut)
    requires
        capacity <= isize::MAX,
    ensures
        bytes_mut_view(buf) == Seq::<u8>::empty(),
;

/// `BytesMut::len`: the number of bytes held. It is never above
/// `isize::MAX`, the limit of one allocation, from which the crate's
/// `remaining_mut` subtracts it.
pub assume_specification[ BytesMut::len ](buf: &BytesMut) -> (n: usize)
    ensures
        n == bytes_mut_view(*buf).len(),
        n <= isize::MAX,
;

/// `BytesMut::extend_from_slice`: the bytes of `extend` are put behind those
/// held. It reserves room first, and panics where the new length is beyond
/// what can be allocated.
pub assume_specification[ BytesMut::extend_from_slice ](buf: &mut BytesMut, extend: &[u8])
    requires
        bytes_mut_view(*old(buf)).len() + extend@.len() <= isize::MAX,
    ensures
        bytes_mut_view(*final(buf)) == bytes_mut_view(*old(buf)) + extend@,
;

/// `BytesMut::resize`: a buffer that grows is filled up with `value`, one
/// that shrinks keeps its first `new_len` bytes.
pub assume_specification[ BytesMut::resize ](buf: &mut BytesMut, new_len: usize, value: u8)
    requires
        new_len <= isize::MAX,
    ensures
        bytes_mut_view(*final(buf)) == Seq::new(
            new_len as nat,
            |i: int|
                if i < bytes_mut_view(*old(buf)).len() {
                    bytes_mut_view(*old(buf))[i]
                } else {
                    value
                },
        ),
;

/// `BytesMut::freeze`: the same bytes, no longer to be changed.
pub assume_specification[ BytesMut::freeze ](buf: BytesMut) -> (frozen: Bytes)
    ensures
        bytes_view(frozen) == bytes_mut_view(buf),
;

/// `BufMut::put_slice` on a `BytesMut`, which is its `extend_from_slice`:
/// the bytes of `src` are put behind those held.
#[verifier::external_body]
pub(crate) fn put_slice(buf: &mut BytesMut, src: &[u8])
    requires
        bytes_mut_view(*old(buf)).len() + src@.len() <= isize::MAX,
    ensures
        bytes_mut_view(*final(buf)) == bytes_mut_view(*old(buf)) + src@,
{
    buf.put_slice(src)
}

/// `BufMut::put_bytes` on a `BytesMut`: `cnt` bytes of the value `val` are
/// put behind those held. It reserves room first, as `extend_from_slice`.
#[verifier::external_body]
pub(crate) fn put_bytes(buf: &mut BytesMut, val: u8, cnt: usize)
    requires
        bytes_mut_view(*old(buf)).len() + cnt <= isize::MAX,
    ensures
        bytes_mut_view(*final(buf)) == bytes_mut_view(*old(buf)) + Seq::new(
            cnt as nat,
            |i: int| val,
        ),
{
    buf.put_bytes(val, cnt)
}

/// The `Deref` of a `BytesMut`: the bytes held, as a slice.
#[verifier::external_body]
pub(crate) fn bytes_mut_as_slice(buf: &BytesMut) -> (s: &[u8])
    ensures
        s@ == bytes_mut_view(*buf),
{
    &buf[..]
}

/// The `DerefMut` of a `BytesMut`, by which one byte is written in its
/// place. The index must lie in the buffer.
#[verifier::external_body]
pub(crate) fn bytes_mut_set(buf: &mut BytesMut, index: usize, value: u8)
    requires
        index < bytes_mut_view(*old(buf)).len(),
    ensures
        bytes_mut_view(*final(buf)) == bytes_mut_view(*old(buf)).update(index as int, value),
{
    buf[index] = value;
}

/// The `Deref` of a `Bytes`: the bytes held, as a slice.
#[verifier::external_body]
pub(crate) fn bytes_as_slice(buf: &Bytes) -> (s: &[u8])
    ensures
        s@ == bytes_view(*buf),
{
    &buf[..]
}

} // verus!
