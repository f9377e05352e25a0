//! The byte buffers of the `bytes` crate, as far as the codec uses them.
//!
//! Nothing in this file is proved: each item states what the `bytes` crate does, over
//! the sequence of bytes that a buffer holds.

use vstd::prelude::*;
use bytes::BufMut;
use std::ops::Deref;

verus! {

/// `bytes::Bytes`: a handle on a run of bytes that no longer changes.
#[verifier::external_type_specification]
#[verifier::external_body]
pub struct ExBytes(bytes::Bytes);

/// `bytes::BytesMut`: a buffer that is filled from the front.
#[verifier::external_type_specification]
#[verifier::external_body]
pub struct ExBytesMut(bytes::BytesMut);

/// The bytes that a `Bytes` handle shows, first to last.
pub uninterp spec fn bytes_contents(b: bytes::Bytes) -> Seq<u8>;

/// The bytes written so far into a `BytesMut`, first to last.
pub uninterp spec fn bytes_mut_contents(b: bytes::BytesMut) -> Seq<u8>;

/// The number of bytes that a `BytesMut` was made to hold. Writing up to it never
/// panics; the buffer may have room for more.
pub uninterp spec fn bytes_mut_limit(b: bytes::BytesMut) -> nat;

/// `Bytes::len` returns the number of bytes the handle shows.
pub assume_specification[ bytes::Bytes::len ](b: &bytes::Bytes) -> (n: usize)
    ensures
        n == bytes_contents(*b).len(),
;

/// `BytesMut::with_capacity` returns an empty buffer that can take at least `capacity`
/// bytes. It allocates like `Vec::with_capacity`, which panics above `isize::MAX`.
pub assume_specification[ bytes::BytesMut::with_capacity ](capacity: usize) -> (b: bytes::BytesMut)
    requires
        capacity <= isize::MAX,
    ensures
        bytes_mut_contents(b) == Seq::<u8>::empty(),
        bytes_mut_limit(b) == capacity,
;

/// `BytesMut::freeze` hands the written bytes over unchanged.
pub assume_specification[ bytes::BytesMut::freeze ](b: bytes::BytesMut) -> (frozen: bytes::Bytes)
    ensures
        bytes_contents(frozen) == bytes_mut_contents(b),
;

/// `BufMut::put_u8` on a `BytesMut` appends one byte; it panics when the buffer is full.
#[verifier::external_body]
pub(crate) fn put_u8(buf: &mut bytes::BytesMut, n: u8)
    requires
        bytes_mut_contents(*old(buf)).len() + 1 <= bytes_mut_limit(*old(buf)),
    ensures
        bytes_mut_contents(*final(buf)) == bytes_mut_contents(*old(buf)).push(n),
        bytes_mut_limit(*final(buf)) == bytes_mut_limit(*old(buf)),
{
    buf.put_u8(n)
}

/// `BufMut::put_u16_le` on a `BytesMut` appends the low byte of `n`, then the high byte;
/// it panics when fewer than two bytes of room are left.
#[verifier::external_body]
pub(crate) fn put_u16_le(buf: &mut bytes::BytesMut, n: u16)
    requires
        bytes_mut_contents(*old(buf)).len() + 2 <= bytes_mut_limit(*old(buf)),
    ensures
        bytes_mut_contents(*final(buf)) == bytes_mut_contents(*old(buf)).push((n % 256) as u8).push(
            (n / 256) as u8,
        ),
        bytes_mut_limit(*final(buf)) == bytes_mut_limit(*old(buf)),
{
    buf.put_u16_le(n)
}

/// `BufMut::put_slice` on a `BytesMut` appends `src`; it panics when `src` does not fit.
#[verifier::external_body]
pub(crate) fn put_slice(buf: &mut bytes::BytesMut, src: &[u8])
    requires
        bytes_mut_contents(*old(buf)).len() + src@.len() <= bytes_mut_limit(*old(buf)),
    ensures
        bytes_mut_contents(*final(buf)) == bytes_mut_contents(*old(buf)) + src@,
        bytes_mut_limit(*final(buf)) == bytes_mut_limit(*old(buf)),
{
    buf.put_slice(src)
}

/// `Bytes::from` on a `Vec<u8>` keeps the vector's bytes.
#[verifier::external_body]
pub(crate) fn bytes_from_vec(src: Vec<u8>) -> (b: bytes::Bytes)
    ensures
        bytes_contents(b) == src@,
{
    bytes::Bytes::from(src)
}

/// Dereferencing a `Bytes` gives its bytes as a slice.
#[verifier::external_body]
pub(crate) fn bytes_as_slice(b: &bytes::Bytes) -> (s: &[u8])
    ensures
        s@ == bytes_contents(*b),
{
    b.deref()
}

} // verus!
