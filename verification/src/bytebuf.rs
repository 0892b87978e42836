//! Trusted boundary to `bytes::BytesMut`, the byte store behind both path
//! buffers. Everything the rest of the crate knows about a `BytesMut` is the
//! sequence of bytes it holds, named by [`bytes_view`]; each wrapper states
//! what one `bytes` operation does to that sequence.

use vstd::prelude::*;

verus! {

#[verifier::external_type_specification]
#[verifier::external_body]
pub struct ExBytesMut(bytes::BytesMut);

/// The bytes a `BytesMut` holds, oldest first.
pub uninterp spec fn bytes_view(b: bytes::BytesMut) -> Seq<u8>;

/// Relies on `bytes::BytesMut::new`: the fresh buffer holds no bytes.
#[verifier::external_body]
pub(crate) fn bytes_new() -> (r: bytes::BytesMut)
    ensures
        bytes_view(r) == Seq::<u8>::empty(),
{
    bytes::BytesMut::new()
}

/// Relies on `bytes::BytesMut::len`: the count of bytes currently held.
#[verifier::external_body]
pub(crate) fn bytes_len(b: &bytes::BytesMut) -> (r: usize)
    ensures
        r == bytes_view(*b).len(),
{
    b.len()
}

/// Relies on `bytes::BytesMut::extend_from_slice`: appends the whole slice
/// at the tail, reallocating as needed (reallocation panics when the total
/// would pass the allocator's size limit, which the precondition rules
/// out).
#[verifier::external_body]
pub(crate) fn bytes_extend(b: &mut bytes::BytesMut, data: &[u8])
    requires
        bytes_view(*old(b)).len() + data@.len() <= isize::MAX as int,
    ensures
        bytes_view(*final(b)) == bytes_view(*old(b)) + data@,
{
    b.extend_from_slice(data)
}

/// Relies on `bytes::Buf::advance` on `BytesMut`: discards exactly the first
/// `n` bytes without touching the rest (it panics when `n` exceeds the
/// length, which the precondition rules out).
#[verifier::external_body]
pub(crate) fn bytes_advance(b: &mut bytes::BytesMut, n: usize)
    requires
        n <= bytes_view(*old(b)).len(),
    ensures
        bytes_view(*final(b)) == bytes_view(*old(b)).skip(n as int),
{
    bytes::Buf::advance(b, n)
}

/// Relies on `BytesMut`'s `Deref` to `[u8]`: the slice is the held bytes in
/// order, of which the first `n` are copied out.
#[verifier::external_body]
pub(crate) fn bytes_head(b: &bytes::BytesMut, n: usize) -> (r: Vec<u8>)
    requires
        n <= bytes_view(*b).len(),
    ensures
        r@ == bytes_view(*b).take(n as int),
{
    b[..n].to_vec()
}

} // verus!
