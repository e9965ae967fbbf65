//! The byte buffers of the `bytes` crate, as the rest of this crate sees them.
//!
//! The contracts of the functions here are believed, not proved: they repeat what `bytes` says of
//! its own functions. A buffer is spoken of through the sequence of bytes that it holds.

use bytes::{Buf, BufMut, Bytes, BytesMut};
use vstd::prelude::*;

verus! {

/// `bytes::Bytes`, an immutable, cheaply cloned run of bytes.
#[verifier::external_type_specification]
#[verifier::external_body]
pub struct ExBytes(bytes::Bytes);

/// `bytes::BytesMut`, a growable buffer that is written at its end and read from its front.
#[verifier::external_type_specification]
#[verifier::external_body]
pub struct ExBytesMut(bytes::BytesMut);

/// The bytes that a `Bytes` holds, first to last.
pub uninterp spec fn bytes_contents(b: Bytes) -> Seq<u8>;

/// The unread bytes that a `BytesMut` holds, first to last.
pub uninterp spec fn buffer_contents(b: BytesMut) -> Seq<u8>;

/// A buffer can grow to `n` bytes: one that grows may double its allocation, and no allocation
/// exceeds `isize::MAX` bytes.
pub open spec fn can_hold(n: nat) -> bool {
    n <= isize::MAX / 2
}

/// The number that four bytes denote, most significant byte first.
pub open spec fn be_u32(s: Seq<u8>) -> int
    recommends
        s.len() == 4,
{
    s[0] * 0x100_0000 + s[1] * 0x1_0000 + s[2] * 0x100 + s[3]
}

/// `n` as four bytes, most significant byte first.
pub open spec fn be_u32_bytes(n: u32) -> Seq<u8> {
    seq![
        (n / 0x100_0000) as u8,
        (n / 0x1_0000 % 0x100) as u8,
        (n / 0x100 % 0x100) as u8,
        (n % 0x100) as u8,
    ]
}

/// `Bytes::len` is the number of bytes held.
#[verifier::external_body]
pub(crate) fn bytes_len(b: &Bytes) -> (n: usize)
    ensures
        n == bytes_contents(*b).len(),
{
    b.len()
}

/// `BytesMut::len` is the number of unread bytes held.
#[verifier::external_body]
pub(crate) fn buffer_len(b: &BytesMut) -> (n: usize)
    ensures
        n == buffer_contents(*b).len(),
{
    b.len()
}

/// `BytesMut::is_empty` tells whether no unread byte is held.
pub assume_specification[ bytes::BytesMut::is_empty ](b: &BytesMut) -> (r: bool)
    ensures
        r == (buffer_contents(*b).len() == 0),
;

/// `BytesMut::split_to` hands out the first `at` bytes and keeps the rest. It panics where fewer
/// than `at` bytes are held.
pub assume_specification[ bytes::BytesMut::split_to ](b: &mut BytesMut, at: usize) -> (r: BytesMut)
    requires
        at <= buffer_contents(*old(b)).len(),
    ensures
        buffer_contents(r) == buffer_contents(*old(b)).take(at as int),
        buffer_contents(*final(b)) == buffer_contents(*old(b)).skip(at as int),
;

/// `BytesMut::split` hands out all bytes and leaves the buffer empty.
pub assume_specification[ bytes::BytesMut::split ](b: &mut BytesMut) -> (r: BytesMut)
    ensures
        buffer_contents(r) == buffer_contents(*old(b)),
        buffer_contents(*final(b)) == Seq::<u8>::empty(),
;

/// `BytesMut::freeze` keeps the bytes as they are.
pub assume_specification[ bytes::BytesMut::freeze ](b: BytesMut) -> (r: Bytes)
    ensures
        bytes_contents(r) == buffer_contents(b),
;

/// `Buf::get_u8` on a `BytesMut` reads its first byte and moves past it. It panics on an empty
/// buffer.
#[verifier::external_body]
pub(crate) fn get_u8(bf: &mut BytesMut) -> (n: u8)
    requires
        buffer_contents(*old(bf)).len() >= 1,
    ensures
        n == buffer_contents(*old(bf))[0],
        buffer_contents(*final(bf)) == buffer_contents(*old(bf)).skip(1),
{
    bf.get_u8()
}

/// `Buf::get_u32` on a `BytesMut` reads its first four bytes as a big-endian number and moves
/// past them. It panics where fewer than four bytes are left.
#[verifier::external_body]
pub(crate) fn get_u32(bf: &mut BytesMut) -> (n: u32)
    requires
        buffer_contents(*old(bf)).len() >= 4,
    ensures
        n == be_u32(buffer_contents(*old(bf)).take(4)),
        buffer_contents(*final(bf)) == buffer_contents(*old(bf)).skip(4),
{
    bf.get_u32()
}

/// `BufMut::put_u8` on a `BytesMut` appends one byte, growing the buffer where it must. It panics
/// where the capacity would overflow, which the contract leaves out; that memory can be had is
/// taken for granted.
#[verifier::external_body]
pub(crate) fn put_u8(bf: &mut BytesMut, n: u8)
    requires
        can_hold(buffer_contents(*old(bf)).len() + 1),
    ensures
        buffer_contents(*final(bf)) == buffer_contents(*old(bf)).push(n),
{
    bf.put_u8(n)
}

/// `BufMut::put_u32` on a `BytesMut` appends a number as four bytes, most significant byte
/// first, growing the buffer where it must. It panics where the capacity would overflow, which
/// the contract leaves out; that memory can be had is taken for granted.
#[verifier::external_body]
pub(crate) fn put_u32(bf: &mut BytesMut, n: u32)
    requires
        can_hold(buffer_contents(*old(bf)).len() + 4),
    ensures
        buffer_contents(*final(bf)) == buffer_contents(*old(bf)) + be_u32_bytes(n),
{
    bf.put_u32(n)
}

/// `BytesMut::extend_from_slice` appends the bytes that it is handed, here those of a `Bytes`,
/// growing the buffer where it must. It panics where the capacity would overflow, which the
/// contract leaves out; that memory can be had is taken for granted.
#[verifier::external_body]
pub(crate) fn extend_from_bytes(bf: &mut BytesMut, extend: &Bytes)
    requires
        can_hold(buffer_contents(*old(bf)).len() + bytes_contents(*extend).len()),
    ensures
        buffer_contents(*final(bf)) == buffer_contents(*old(bf)) + bytes_contents(*extend),
{
    bf.extend_from_slice(extend)
}

/// `Bytes::from` on a string literal holds the UTF-8 encoding of the text.
#[verifier::external_body]
pub(crate) fn bytes_from_str(s: &'static str) -> (r: Bytes)
    ensures
        bytes_contents(r) == vstd::utf8::encode_utf8(s@),
{
    Bytes::from(s)
}

} // verus!
