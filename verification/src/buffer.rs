//! The byte buffer that frames are read from and written to, with the
//! operations on it that the frame format needs.
//!
//! `BytesMut` is taken as it is. Its contents are named by [`buf_bytes`], and
//! each operation below states what it does to them; none of these statements
//! is proved here. A buffer grows as a `Vec` does: appending fails only where
//! the memory for it cannot be had, and of that nothing is said here.

use tokio_util::bytes::{Buf, BufMut, BytesMut};
use vstd::prelude::*;

verus! {

/// `BytesMut` of the `bytes` crate, as `tokio_util` hands it on: a growable
/// buffer of bytes. Nothing of its inside is known here.
#[verifier::external_type_specification]
#[verifier::external_body]
pub struct ExBytesMut(BytesMut);

/// The bytes that a buffer holds, first to last.
pub uninterp spec fn buf_bytes(b: BytesMut) -> Seq<u8>;

/// `BytesMut::from(&[u8])`: a buffer that holds a copy of the slice.
#[verifier::external_body]
pub(crate) fn buf_from_slice(src: &[u8]) -> (b: BytesMut)
    ensures
        buf_bytes(b) == src@,
{
    BytesMut::from(src)
}

/// `BytesMut::clone`: a buffer of its own with the same bytes.
pub assume_specification[ <BytesMut as Clone>::clone ](b: &BytesMut) -> (c: BytesMut)
    ensures
        buf_bytes(c) == buf_bytes(*b),
;

/// `BytesMut::len`: the number of bytes held.
#[verifier::external_body]
pub(crate) fn buf_len(b: &BytesMut) -> (n: usize)
    ensures
        n == buf_bytes(*b).len(),
{
    b.len()
}

/// `BytesMut::as_ref`: the bytes held, as a slice.
#[verifier::external_body]
pub(crate) fn buf_as_slice(b: &BytesMut) -> (s: &[u8])
    ensures
        s@ == buf_bytes(*b),
{
    b.as_ref()
}

/// `Buf::advance` on a `BytesMut`: drops the first `cnt` bytes. The call
/// panics beyond the buffer's length, which `requires` excludes.
#[verifier::external_body]
pub(crate) fn buf_advance(b: &mut BytesMut, cnt: usize)
    requires
        cnt <= buf_bytes(*old(b)).len(),
    ensures
        buf_bytes(*final(b)) == buf_bytes(*old(b)).skip(cnt as int),
{
    b.advance(cnt)
}

/// `BytesMut::split_to`: hands out the first `at` bytes and keeps the rest.
/// The call panics beyond the buffer's length, which `requires` excludes.
#[verifier::external_body]
pub(crate) fn buf_split_to(b: &mut BytesMut, at: usize) -> (head: BytesMut)
    requires
        at <= buf_bytes(*old(b)).len(),
    ensures
        buf_bytes(head) == buf_bytes(*old(b)).take(at as int),
        buf_bytes(*final(b)) == buf_bytes(*old(b)).skip(at as int),
{
    b.split_to(at)
}

/// `BufMut::put_u8` on a `BytesMut`: appends one byte, growing the buffer as
/// needed.
#[verifier::external_body]
pub(crate) fn buf_put_u8(b: &mut BytesMut, n: u8)
    ensures
        buf_bytes(*final(b)) == buf_bytes(*old(b)).push(n),
{
    b.put_u8(n)
}

/// `BufMut::put_u16` on a `BytesMut`: appends the two bytes of `n`, the high
/// one first, growing the buffer as needed.
#[verifier::external_body]
pub(crate) fn buf_put_u16(b: &mut BytesMut, n: u16)
    ensures
        buf_bytes(*final(b)) == buf_bytes(*old(b)).push((n / 256) as u8).push((n % 256) as u8),
{
    b.put_u16(n)
}

/// `BufMut::put_slice` on a `BytesMut`: appends a copy of the slice, growing
/// the buffer as needed.
#[verifier::external_body]
pub(crate) fn buf_put_slice(b: &mut BytesMut, src: &[u8])
    ensures
        buf_bytes(*final(b)) == buf_bytes(*old(b)) + src@,
{
    b.put_slice(src)
}

} // verus!
