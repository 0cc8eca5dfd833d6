//! The growable byte buffer of the `bytes` crate, as the library uses it.
//!
//! `BytesMut` is opaque to the verifier. Its contents are named by
//! `bytes_mut_contents`, and every method that the library calls has a
//! wrapper below whose contract says, over that name, what the `bytes` source
//! does to the contents.
use bytes::Buf;
use bytes::BytesMut;
use vstd::prelude::*;

verus! {

/// `bytes::BytesMut`, carried through verified code as an opaque value.
#[verifier::external_type_specification]
#[verifier::external_body]
pub struct ExBytesMut(BytesMut);

/// The bytes held by a `BytesMut`, first byte first.
pub uninterp spec fn bytes_mut_contents(b: BytesMut) -> Seq<u8>;

/// `BytesMut::new`: a buffer that holds no bytes.
#[verifier::external_body]
pub(crate) fn bytes_mut_new() -> (b: BytesMut)
    ensures
        bytes_mut_contents(b) == Seq::<u8>::empty(),
{
    BytesMut::new()
}

/// `BytesMut::len`: the number of bytes held.
#[verifier::external_body]
pub(crate) fn bytes_mut_len(b: &BytesMut) -> (n: usize)
    ensures
        n == bytes_mut_contents(*b).len(),
{
    b.len()
}

/// `BytesMut::clear`: drops every byte held.
#[verifier::external_body]
pub(crate) fn bytes_mut_clear(b: &mut BytesMut)
    ensures
        bytes_mut_contents(*final(b)) == Seq::<u8>::empty(),
{
    b.clear()
}

/// `BytesMut::extend_from_slice`: appends `data` after the bytes held.
/// The call panics when the new capacity would not fit, so the total length
/// is bounded by `isize::MAX`.
#[verifier::external_body]
pub(crate) fn bytes_mut_extend_from_slice(b: &mut BytesMut, data: &[u8])
    requires
        bytes_mut_contents(*old(b)).len() + data@.len() <= isize::MAX,
    ensures
        bytes_mut_contents(*final(b)) == bytes_mut_contents(*old(b)) + data@,
{
    b.extend_from_slice(data)
}

/// `BytesMut::split_to`: the first `at` bytes leave the buffer and are
/// returned; the buffer keeps the rest. Panics if `at` exceeds the length.
#[verifier::external_body]
pub(crate) fn bytes_mut_split_to(b: &mut BytesMut, at: usize) -> (front: BytesMut)
    requires
        at <= bytes_mut_contents(*old(b)).len(),
    ensures
        bytes_mut_contents(front) == bytes_mut_contents(*old(b)).take(at as int),
        bytes_mut_contents(*final(b)) == bytes_mut_contents(*old(b)).skip(at as int),
{
    b.split_to(at)
}

/// `Buf::advance` for `BytesMut`: drops the first `count` bytes.
/// Panics if `count` exceeds the length.
#[verifier::external_body]
pub(crate) fn bytes_mut_advance(b: &mut BytesMut, count: usize)
    requires
        count <= bytes_mut_contents(*old(b)).len(),
    ensures
        bytes_mut_contents(*final(b)) == bytes_mut_contents(*old(b)).skip(count as int),
{
    b.advance(count)
}

/// `Buf::chunk` for `BytesMut`, copied out: for a `BytesMut` the chunk is
/// every byte held.
#[verifier::external_body]
pub(crate) fn bytes_mut_chunk(b: &BytesMut) -> (v: Vec<u8>)
    ensures
        v@ == bytes_mut_contents(*b),
{
    b.chunk().to_vec()
}

/// Indexing a `BytesMut` (through its `Deref` to a byte slice).
#[verifier::external_body]
pub(crate) fn bytes_mut_byte_at(b: &BytesMut, i: usize) -> (v: u8)
    requires
        i < bytes_mut_contents(*b).len(),
    ensures
        v == bytes_mut_contents(*b)[i as int],
{
    b[i]
}

} // verus!
