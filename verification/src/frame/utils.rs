//! The tail that most frame bodies share: metadata behind its length, then data.

use super::Frame;
use crate::buf::{
    buffer_contents, buffer_len, bytes_contents, bytes_len, can_hold, extend_from_bytes, get_u8,
    put_u8,
};
use crate::errors::{ErrorKind, RSocketError, RSocketResult};
use bytes::{Bytes, BytesMut};
use vstd::prelude::*;

verus! {

use super::has_flag;

/// The largest number that three bytes can denote.
pub const U24_MAX: usize = 0xFF_FFFF;

/// The number that three bytes denote, most significant byte first.
pub open spec fn u24_value(s: Seq<u8>) -> int
    recommends
        s.len() == 3,
{
    s[0] * 0x1_0000 + s[1] * 0x100 + s[2]
}

/// The low 24 bits of `n` as three bytes, most significant byte first.
pub open spec fn u24_bytes(n: nat) -> Seq<u8> {
    seq![(n / 0x1_0000 % 0x100) as u8, (n / 0x100 % 0x100) as u8, (n % 0x100) as u8]
}

/// The bytes of an optional `Bytes`.
pub open spec fn contents_of(b: Option<Bytes>) -> Option<Seq<u8>> {
    match b {
        Some(b) => Some(bytes_contents(b)),
        None => None,
    }
}

/// The bytes of an optional reference to a `Bytes`.
pub open spec fn contents_of_ref(b: Option<&Bytes>) -> Option<Seq<u8>> {
    match b {
        Some(b) => Some(bytes_contents(*b)),
        None => None,
    }
}

/// `s`, where no bytes at all count as nothing.
pub open spec fn non_empty(s: Seq<u8>) -> Option<Seq<u8>> {
    if s.len() == 0 {
        None
    } else {
        Some(s)
    }
}

/// `data` as a reader finds it: present but empty data leaves no trace in the encoding.
pub open spec fn readable(data: Option<Seq<u8>>) -> Option<Seq<u8>> {
    match data {
        Some(d) => non_empty(d),
        None => None,
    }
}

/// The encoding of metadata and data.
pub open spec fn payload_bytes(metadata: Option<Seq<u8>>, data: Option<Seq<u8>>) -> Seq<u8> {
    let head = match metadata {
        Some(m) => u24_bytes(m.len()) + m,
        None => Seq::<u8>::empty(),
    };
    let tail = match data {
        Some(d) => d,
        None => Seq::<u8>::empty(),
    };
    head + tail
}

/// What the bytes `s` hold behind the flags `flag`: the metadata and the data, or, where `s` ends
/// too early, the number of bytes that had to be there.
pub open spec fn parse_payload(flag: u16, s: Seq<u8>) -> Result<
    (Option<Seq<u8>>, Option<Seq<u8>>),
    int,
> {
    if !has_flag(flag, Frame::FLAG_METADATA) {
        Ok((None, non_empty(s)))
    } else if s.len() < 3 {
        Err(3)
    } else {
        let n = u24_value(s.take(3));
        if s.len() < 3 + n {
            Err(n)
        } else {
            Ok((Some(s.subrange(3, 3 + n)), non_empty(s.skip(3 + n))))
        }
    }
}

/// The bytes of `s` that a reader leaves unread: none where it succeeds, and else those behind
/// the metadata length, if there is one.
pub open spec fn unread_payload(flag: u16, s: Seq<u8>) -> Seq<u8> {
    if parse_payload(flag, s) is Ok {
        Seq::empty()
    } else if s.len() < 3 {
        s
    } else {
        s.skip(3)
    }
}

/// The error of a frame that ends before `n` bytes.
pub fn too_short<T>(n: usize) -> (r: RSocketResult<T>)
    ensures
        r == Err::<T, RSocketError>(RSocketError { kind: ErrorKind::LengthTooShort(n) }),
{
    Err(RSocketError::from(ErrorKind::LengthTooShort(n)))
}

/// Reads a number of three bytes, most significant byte first.
fn read_u24(bf: &mut BytesMut) -> (n: usize)
    requires
        buffer_contents(*old(bf)).len() >= 3,
    ensures
        n == u24_value(buffer_contents(*old(bf)).take(3)),
        n <= U24_MAX,
        buffer_contents(*final(bf)) == buffer_contents(*old(bf)).skip(3),
{
    let ghost s = buffer_contents(*bf);
    let high: usize = get_u8(bf) as usize;
    let middle: usize = get_u8(bf) as usize;
    let low: usize = get_u8(bf) as usize;
    assert(s.skip(1).skip(1).skip(1) =~= s.skip(3));
    high * 0x1_0000 + middle * 0x100 + low
}

/// Appends the low 24 bits of `n` as three bytes, most significant byte first.
fn write_u24(n: usize, bf: &mut BytesMut)
    requires
        can_hold(buffer_contents(*old(bf)).len() + 3),
    ensures
        buffer_contents(*final(bf)) == buffer_contents(*old(bf)) + u24_bytes(n as nat),
{
    let ghost s = buffer_contents(*bf);
    put_u8(bf, (n / 0x1_0000 % 0x100) as u8);
    put_u8(bf, (n / 0x100 % 0x100) as u8);
    put_u8(bf, (n % 0x100) as u8);
    assert(buffer_contents(*bf) =~= s + u24_bytes(n as nat));
}

/// Reads the metadata, where `flag` announces it, and takes all that is left as data.
pub fn read_payload(flag: u16, bf: &mut BytesMut) -> (r: RSocketResult<
    (Option<Bytes>, Option<Bytes>),
>)
    ensures
        match parse_payload(flag, buffer_contents(*old(bf))) {
            Ok((metadata, data)) => r matches Ok((m, d)) && contents_of(m) == metadata
                && contents_of(d) == data,
            Err(n) => r matches Err(e) && (e.kind matches ErrorKind::LengthTooShort(k) && k == n),
        },
        buffer_contents(*final(bf)) == unread_payload(flag, buffer_contents(*old(bf))),
{
    let ghost s = buffer_contents(*bf);
    let metadata: Option<Bytes> = if flag & Frame::FLAG_METADATA != 0 {
        if buffer_len(bf) < 3 {
            return too_short(3);
        }
        let n: usize = read_u24(bf);
        if buffer_len(bf) < n {
            return too_short(n);
        }
        let m = bf.split_to(n).freeze();
        assert(s.skip(3).take(n as int) =~= s.subrange(3, 3 + n));
        assert(s.skip(3).skip(n as int) =~= s.skip(3 + n));
        Some(m)
    } else {
        None
    };
    let data: Option<Bytes> = if bf.is_empty() {
        assert(buffer_contents(*bf) =~= Seq::empty());
        None
    } else {
        Some(bf.split().freeze())
    };
    Ok((metadata, data))
}

/// Writes metadata and data, the counterpart of [`read_payload`].
pub struct PayloadSupport {}

impl PayloadSupport {
    /// The number of bytes that [`PayloadSupport::write`] appends.
    pub fn len(metadata: Option<&Bytes>, data: Option<&Bytes>) -> (n: usize)
        requires
            payload_bytes(contents_of_ref(metadata), contents_of_ref(data)).len() <= usize::MAX,
        ensures
            n == payload_bytes(contents_of_ref(metadata), contents_of_ref(data)).len(),
    {
        let a: usize = match metadata {
            Some(v) => 3 + bytes_len(v),
            None => 0,
        };
        let b: usize = match data {
            Some(v) => bytes_len(v),
            None => 0,
        };
        a + b
    }

    /// Appends the metadata behind its length, then the data. Of a length beyond 24 bits only
    /// the low 24 bits are written.
    pub fn write(bf: &mut BytesMut, metadata: Option<&Bytes>, data: Option<&Bytes>)
        requires
            can_hold(
                buffer_contents(*old(bf)).len() + payload_bytes(
                    contents_of_ref(metadata),
                    contents_of_ref(data),
                ).len(),
            ),
        ensures
            buffer_contents(*final(bf)) == buffer_contents(*old(bf)) + payload_bytes(
                contents_of_ref(metadata),
                contents_of_ref(data),
            ),
    {
        let ghost s = buffer_contents(*bf);
        match metadata {
            Some(v) => {
                write_u24(bytes_len(v), bf);
                extend_from_bytes(bf, v);
            },
            None => {},
        }
        match data {
            Some(v) => {
                extend_from_bytes(bf, v);
            },
            None => {},
        }
        assert(buffer_contents(*bf) =~= s + payload_bytes(
            contents_of_ref(metadata),
            contents_of_ref(data),
        ));
    }
}

/// Three bytes hold every number up to `U24_MAX`.
proof fn lemma_u24_round_trip(n: nat)
    requires
        n <= U24_MAX,
    ensures
        u24_bytes(n).len() == 3,
        u24_value(u24_bytes(n)) == n,
{
}

/// A number of three bytes is written back as the bytes that it was read from.
proof fn lemma_u24_bytes_of_value(s: Seq<u8>)
    requires
        s.len() == 3,
    ensures
        0 <= u24_value(s) <= U24_MAX,
        u24_bytes(u24_value(s) as nat) == s,
{
    let n = u24_value(s);
    assert(n / 0x1_0000 == s[0]);
    assert(n / 0x100 == s[0] * 0x100 + s[1]);
    assert(u24_bytes(n as nat) =~= s);
}

/// What is written is read back: metadata and data, behind flags that announce the metadata if
/// and only if there is some, with metadata of a length that 24 bits can hold. Data that is
/// present but empty is read back as absent.
pub proof fn read_inverts_write(flag: u16, metadata: Option<Seq<u8>>, data: Option<Seq<u8>>)
    requires
        has_flag(flag, Frame::FLAG_METADATA) == (metadata is Some),
        metadata matches Some(m) ==> m.len() <= U24_MAX,
    ensures
        parse_payload(flag, payload_bytes(metadata, data)) == Ok::<_, int>(
            (metadata, readable(data)),
        ),
{
    let s = payload_bytes(metadata, data);
    let d = match data {
        Some(d) => d,
        None => Seq::<u8>::empty(),
    };
    match metadata {
        Some(m) => {
            lemma_u24_round_trip(m.len());
            assert(s.take(3) =~= u24_bytes(m.len()));
            let n = m.len() as int;
            assert(s.subrange(3, 3 + n) =~= m);
            assert(s.skip(3 + n) =~= d);
        },
        None => {
            assert(s =~= d);
        },
    }
}

/// What is read is written back byte for byte, and there is metadata if and only if the flags
/// announced it.
pub proof fn write_inverts_read(flag: u16, s: Seq<u8>)
    ensures
        parse_payload(flag, s) matches Ok((metadata, data)) ==> {
            &&& payload_bytes(metadata, data) == s
            &&& has_flag(flag, Frame::FLAG_METADATA) == (metadata is Some)
        },
{
    if let Ok((metadata, data)) = parse_payload(flag, s) {
        if has_flag(flag, Frame::FLAG_METADATA) {
            let n = u24_value(s.take(3));
            lemma_u24_bytes_of_value(s.take(3));
            assert(s =~= s.take(3) + s.subrange(3, 3 + n) + s.skip(3 + n));
            assert(payload_bytes(metadata, data) =~= s);
        } else {
            assert(payload_bytes(metadata, data) =~= s);
        }
    }
}

} // verus!
