//! The byte containers of the `bytes` crate, as this library uses them.
//!
//! Verus cannot look inside a `Bytes` or a `BytesMut`. What each holds is
//! named by a function without a definition, and each call into the crate is
//! made by a small function whose contract is believed, not proved.

use bytes::{BufMut, Bytes, BytesMut};
use vstd::prelude::*;

verus! {

/// `bytes::Bytes`, a shared byte string that cannot be changed. Nothing
/// inside it is visible to proofs.
#[verifier::external_type_specification]
#[verifier::external_body]
pub struct ExBytes(Bytes);

/// `bytes::BytesMut`, a buffer of bytes that grows. Nothing inside it is
/// visible to proofs.
#[verifier::external_type_specification]
#[verifier::external_body]
pub struct ExBytesMut(BytesMut);

/// The bytes that a `Bytes` holds, first to last.
pub uninterp spec fn bytes_contents(b: &Bytes) -> Seq<u8>;

/// The bytes that a `BytesMut` holds, first to last.
pub uninterp spec fn bytes_mut_contents(b: &BytesMut) -> Seq<u8>;

/// `Bytes::copy_from_slice`. Not proved: that the new `Bytes` holds a copy of
/// the slice.
#[verifier::external_body]
pub(crate) fn bytes_from_slice(data: &[u8]) -> (r: Bytes)
    ensures
        bytes_contents(&r) == data@,
{
    Bytes::copy_from_slice(data)
}

/// `AsRef<[u8]>::as_ref` of `Bytes`. Not proved: that the slice is what the
/// `Bytes` holds.
#[verifier::external_body]
pub(crate) fn bytes_as_slice(b: &Bytes) -> (r: &[u8])
    ensures
        r@ == bytes_contents(b),
{
    b.as_ref()
}

/// `Clone::clone` of `Bytes`. Not proved: that the clone holds the same bytes.
#[verifier::external_body]
pub(crate) fn bytes_clone(b: &Bytes) -> (r: Bytes)
    ensures
        bytes_contents(&r) == bytes_contents(b),
{
    b.clone()
}

/// `PartialEq::eq` of `Bytes`. Not proved: that two `Bytes` are equal exactly
/// when they hold the same bytes.
#[verifier::external_body]
pub(crate) fn bytes_eq(a: &Bytes, b: &Bytes) -> (r: bool)
    ensures
        r == (bytes_contents(a) == bytes_contents(b)),
{
    a == b
}

/// `BytesMut::new`. Not proved: that the new buffer is empty.
#[verifier::external_body]
pub(crate) fn bytes_mut_new() -> (r: BytesMut)
    ensures
        bytes_mut_contents(&r) == Seq::<u8>::empty(),
{
    BytesMut::new()
}

/// `BytesMut::extend_from_slice`. Not proved: that it appends the slice. It
/// reserves room as a `Vec` does, and so panics when the new length is
/// beyond `isize::MAX`, which the precondition leaves out.
#[verifier::external_body]
pub(crate) fn bytes_mut_extend_from_slice(buf: &mut BytesMut, extend: &[u8])
    requires
        bytes_mut_contents(old(buf)).len() + extend@.len() <= isize::MAX,
    ensures
        bytes_mut_contents(final(buf)) == bytes_mut_contents(old(buf)) + extend@,
{
    buf.extend_from_slice(extend)
}

/// `BufMut::put_u16` of `BytesMut`. Not proved: that it appends the two bytes
/// of the number, most significant byte first. The precondition leaves out
/// the length beyond `isize::MAX` on which it panics.
#[verifier::external_body]
pub(crate) fn bytes_mut_put_u16(buf: &mut BytesMut, n: u16)
    requires
        bytes_mut_contents(old(buf)).len() + 2 <= isize::MAX,
    ensures
        bytes_mut_contents(final(buf)) == bytes_mut_contents(old(buf)) + seq![
            (n / 0x100) as u8,
            (n % 0x100) as u8,
        ],
{
    buf.put_u16(n)
}

/// `BufMut::put_u8` of `BytesMut`. Not proved: that it appends the byte. The
/// precondition leaves out the length beyond `isize::MAX` on which it
/// panics.
#[verifier::external_body]
pub(crate) fn bytes_mut_put_u8(buf: &mut BytesMut, n: u8)
    requires
        bytes_mut_contents(old(buf)).len() + 1 <= isize::MAX,
    ensures
        bytes_mut_contents(final(buf)) == bytes_mut_contents(old(buf)) + seq![n],
{
    buf.put_u8(n)
}

/// `BytesMut::freeze`. Not proved: that the `Bytes` holds what the buffer
/// held.
#[verifier::external_body]
pub(crate) fn bytes_mut_freeze(buf: BytesMut) -> (r: Bytes)
    ensures
        bytes_contents(&r) == bytes_mut_contents(&buf),
{
    buf.freeze()
}

} // verus!
