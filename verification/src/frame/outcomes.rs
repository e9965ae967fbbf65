//! What each operation on frames does, told byte by byte and field by field of what it is given
//! and what it gives.

use super::{
    read_payload, too_short, Body, Frame, PayloadSupport, RequestChannel, RequestChannelBuilder,
    REQUEST_MAX,
};
use crate::errors::{ErrorKind, RSocketError, RSocketResult};
use crate::utils::Writeable;
use bytes::{Bytes, BytesMut};
use vstd::prelude::*;

verus! {

use super::utils::{payload_bytes, u24_bytes};
use crate::buf::{buffer_contents, bytes_contents};

/// Bytes without metadata: the first four are the number, all others are the data as they stand,
/// and there is no data where there are no others.
pub proof fn decode_without_metadata(
    flag: u16,
    bf: &mut BytesMut,
    r: RSocketResult<RequestChannel>,
)
    requires
        call_ensures(RequestChannel::decode, (flag, bf), r),
        flag & Frame::FLAG_METADATA == 0,
        buffer_contents(*old(bf)).len() >= 4,
    ensures
        ({
            let s = buffer_contents(*old(bf));
            &&& r matches Ok(c)
            &&& c@.initial_request_n == s[0] * 0x100_0000 + s[1] * 0x1_0000 + s[2] * 0x100 + s[3]
            &&& c@.metadata is None
            &&& match c@.data {
                Some(d) => {
                    &&& s.len() > 4
                    &&& d.len() == s.len() - 4
                    &&& forall|j: int| 0 <= j < d.len() ==> #[trigger] d[j] == s[4 + j]
                },
                None => s.len() == 4,
            }
        }),
        buffer_contents(*final(bf)).len() == 0,
{
}

/// Bytes with metadata: the first four are the number, three more are the length of the metadata,
/// so many more are the metadata as they stand, all others are the data as they stand, and there
/// is no data where there are no others.
pub proof fn decode_with_metadata(
    flag: u16,
    bf: &mut BytesMut,
    n: int,
    r: RSocketResult<RequestChannel>,
)
    requires
        call_ensures(RequestChannel::decode, (flag, bf), r),
        flag & Frame::FLAG_METADATA != 0,
        buffer_contents(*old(bf)).len() >= 7 + n,
        ({
            let s = buffer_contents(*old(bf));
            n == s[4] * 0x1_0000 + s[5] * 0x100 + s[6]
        }),
    ensures
        ({
            let s = buffer_contents(*old(bf));
            &&& r matches Ok(c)
            &&& c@.initial_request_n == s[0] * 0x100_0000 + s[1] * 0x1_0000 + s[2] * 0x100 + s[3]
            &&& c@.metadata matches Some(m)
            &&& m.len() == n
            &&& forall|i: int| 0 <= i < n ==> #[trigger] m[i] == s[7 + i]
            &&& match c@.data {
                Some(d) => {
                    &&& s.len() > 7 + n
                    &&& d.len() == s.len() - 7 - n
                    &&& forall|j: int| 0 <= j < d.len() ==> #[trigger] d[j] == s[7 + n + j]
                },
                None => s.len() == 7 + n,
            }
        }),
        buffer_contents(*final(bf)).len() == 0,
{
    let s = buffer_contents(*old(bf));
    assert(s.skip(4).take(3) =~= seq![s[4], s[5], s[6]]);
}

/// Decoding fails where the number, the metadata length or the metadata is cut off, and in no
/// other case. The error names what had to be there, and only what comes before the gap is read.
pub proof fn decode_of_too_few_bytes(
    flag: u16,
    bf: &mut BytesMut,
    r: RSocketResult<RequestChannel>,
)
    requires
        call_ensures(RequestChannel::decode, (flag, bf), r),
    ensures
        ({
            let s = buffer_contents(*old(bf));
            let rest = buffer_contents(*final(bf));
            let n = s[4] * 0x1_0000 + s[5] * 0x100 + s[6];
            let announced = flag & Frame::FLAG_METADATA != 0;
            &&& r is Err <==> s.len() < 4 || announced && (s.len() < 7 || s.len() < 7 + n)
            &&& s.len() < 4 ==> {
                &&& r matches Err(e) && e.kind == ErrorKind::LengthTooShort(4)
                &&& rest == s
            }
            &&& announced && 4 <= s.len() < 7 ==> {
                &&& r matches Err(e) && e.kind == ErrorKind::LengthTooShort(3)
                &&& rest.len() == s.len() - 4
                &&& forall|i: int| 0 <= i < rest.len() ==> #[trigger] rest[i] == s[4 + i]
            }
            &&& announced && 7 <= s.len() < 7 + n ==> {
                &&& r matches Err(e) && (e.kind matches ErrorKind::LengthTooShort(k) && k == n)
                &&& rest.len() == s.len() - 7
                &&& forall|i: int| 0 <= i < rest.len() ==> #[trigger] rest[i] == s[7 + i]
            }
        }),
{
    let s = buffer_contents(*old(bf));
    if s.len() >= 7 {
        assert(s.skip(4).take(3) =~= seq![s[4], s[5], s[6]]);
    }
}

/// A payload without metadata: all bytes are the data as they stand, and there is no data where
/// there are no bytes.
pub proof fn read_without_metadata(
    flag: u16,
    bf: &mut BytesMut,
    r: RSocketResult<(Option<Bytes>, Option<Bytes>)>,
)
    requires
        call_ensures(read_payload, (flag, bf), r),
        flag & Frame::FLAG_METADATA == 0,
    ensures
        ({
            let s = buffer_contents(*old(bf));
            &&& r matches Ok((metadata, data))
            &&& metadata is None
            &&& data is Some <==> s.len() > 0
            &&& data matches Some(d) ==> bytes_contents(d) == s
        }),
        buffer_contents(*final(bf)).len() == 0,
{
}

/// A payload with metadata: three bytes are its length, so many more are the metadata as they
/// stand, all others are the data as they stand.
pub proof fn read_with_metadata(
    flag: u16,
    bf: &mut BytesMut,
    n: int,
    r: RSocketResult<(Option<Bytes>, Option<Bytes>)>,
)
    requires
        call_ensures(read_payload, (flag, bf), r),
        flag & Frame::FLAG_METADATA != 0,
        buffer_contents(*old(bf)).len() >= 3 + n,
        ({
            let s = buffer_contents(*old(bf));
            n == s[0] * 0x1_0000 + s[1] * 0x100 + s[2]
        }),
    ensures
        ({
            let s = buffer_contents(*old(bf));
            &&& r matches Ok((metadata, data))
            &&& metadata matches Some(m)
            &&& bytes_contents(m).len() == n
            &&& forall|i: int| 0 <= i < n ==> #[trigger] bytes_contents(m)[i] == s[3 + i]
            &&& data is Some <==> s.len() > 3 + n
            &&& data matches Some(d) ==> {
                &&& bytes_contents(d).len() == s.len() - 3 - n
                &&& forall|j: int|
                    0 <= j < bytes_contents(d).len() ==> #[trigger] bytes_contents(d)[j] == s[3 + n
                        + j]
            }
        }),
        buffer_contents(*final(bf)).len() == 0,
{
}

/// Reading a payload fails where the metadata length or the metadata is cut off, and in no other
/// case.
pub proof fn read_of_too_few_bytes(
    flag: u16,
    bf: &mut BytesMut,
    r: RSocketResult<(Option<Bytes>, Option<Bytes>)>,
)
    requires
        call_ensures(read_payload, (flag, bf), r),
    ensures
        ({
            let s = buffer_contents(*old(bf));
            let rest = buffer_contents(*final(bf));
            let n = s[0] * 0x1_0000 + s[1] * 0x100 + s[2];
            let announced = flag & Frame::FLAG_METADATA != 0;
            &&& r is Err <==> announced && (s.len() < 3 || s.len() < 3 + n)
            &&& announced && s.len() < 3 ==> {
                &&& r matches Err(e) && e.kind == ErrorKind::LengthTooShort(3)
                &&& rest == s
            }
            &&& announced && 3 <= s.len() < 3 + n ==> {
                &&& r matches Err(e) && (e.kind matches ErrorKind::LengthTooShort(k) && k == n)
                &&& rest.len() == s.len() - 3
                &&& forall|i: int| 0 <= i < rest.len() ==> #[trigger] rest[i] == s[3 + i]
            }
        }),
{
}

/// The bytes of a payload at each place.
proof fn lemma_payload_bytes(metadata: Option<Seq<u8>>, data: Option<Seq<u8>>)
    ensures
        ({
            let s = payload_bytes(metadata, data);
            let k = match metadata {
                Some(m) => 3 + m.len() as int,
                None => 0,
            };
            let l = match data {
                Some(d) => d.len() as int,
                None => 0,
            };
            &&& s.len() == k + l
            &&& metadata matches Some(m) ==> {
                &&& s[0] == m.len() as int / 0x1_0000 % 0x100
                &&& s[1] == m.len() as int / 0x100 % 0x100
                &&& s[2] == m.len() as int % 0x100
                &&& forall|i: int| 3 <= i < k ==> #[trigger] s[i] == m[i - 3]
            }
            &&& data matches Some(d) ==> forall|i: int|
                k <= i < k + l ==> #[trigger] s[i] == d[i - k]
        }),
{
    if let Some(m) = metadata {
        assert(u24_bytes(m.len()).len() == 3);
    }
}

/// Writing keeps what the buffer holds and appends the number in four bytes, then the metadata,
/// if there is some, as it is behind its length in three bytes, then the data, if there is some,
/// as it is.
pub proof fn write_to_appends_each_byte(c: &RequestChannel, bf: &mut BytesMut)
    requires
        call_ensures(<RequestChannel as Writeable>::write_to, (c, bf), ()),
    ensures
        ({
            let before = buffer_contents(*old(bf));
            let after = buffer_contents(*final(bf));
            let b = before.len() as int;
            let n = c@.initial_request_n as int;
            let k = match c@.metadata {
                Some(m) => b + 7 + m.len(),
                None => b + 4,
            };
            let l = match c@.data {
                Some(d) => d.len() as int,
                None => 0,
            };
            &&& after.len() == k + l
            &&& forall|i: int| 0 <= i < b ==> #[trigger] after[i] == before[i]
            &&& after[b] * 0x100_0000 + after[b + 1] * 0x1_0000 + after[b + 2] * 0x100 + after[b
                + 3] == n
            &&& c@.metadata matches Some(m) ==> {
                &&& after[b + 4] == m.len() as int / 0x1_0000 % 0x100
                &&& after[b + 5] == m.len() as int / 0x100 % 0x100
                &&& after[b + 6] == m.len() as int % 0x100
                &&& forall|i: int| b + 7 <= i < k ==> #[trigger] after[i] == m[i - b - 7]
            }
            &&& c@.data matches Some(d) ==> forall|i: int|
                k <= i < k + l ==> #[trigger] after[i] == d[i - k]
        }),
{
    lemma_payload_bytes(c@.metadata, c@.data);
}

/// The length of an encoding is four, three more and the length of the metadata where there is
/// metadata, and the length of the data where there is data.
pub proof fn len_adds_up(c: &RequestChannel, r: usize)
    requires
        call_ensures(<RequestChannel as Writeable>::len, (c,), r),
    ensures
        r == 4 + match c@.metadata {
            Some(m) => 3 + m.len() as int,
            None => 0,
        } + match c@.data {
            Some(d) => d.len() as int,
            None => 0,
        },
{
    lemma_payload_bytes(c@.metadata, c@.data);
}

/// Writing a payload keeps what the buffer holds and appends the metadata, if there is some, as
/// it is behind its length in three bytes, then the data, if there is some, as it is.
pub proof fn payload_write_appends_each_byte(
    bf: &mut BytesMut,
    metadata: Option<&Bytes>,
    data: Option<&Bytes>,
)
    requires
        call_ensures(PayloadSupport::write, (bf, metadata, data), ()),
    ensures
        ({
            let before = buffer_contents(*old(bf));
            let after = buffer_contents(*final(bf));
            let b = before.len() as int;
            let k = match metadata {
                Some(m) => b + 3 + bytes_contents(*m).len(),
                None => b,
            };
            let l = match data {
                Some(d) => bytes_contents(*d).len() as int,
                None => 0,
            };
            &&& after.len() == k + l
            &&& forall|i: int| 0 <= i < b ==> #[trigger] after[i] == before[i]
            &&& metadata matches Some(m) ==> {
                let n = bytes_contents(*m).len() as int;
                &&& after[b] == n / 0x1_0000 % 0x100
                &&& after[b + 1] == n / 0x100 % 0x100
                &&& after[b + 2] == n % 0x100
                &&& forall|i: int|
                    b + 3 <= i < k ==> #[trigger] after[i] == bytes_contents(*m)[i - b - 3]
            }
            &&& data matches Some(d) ==> forall|i: int|
                k <= i < k + l ==> #[trigger] after[i] == bytes_contents(*d)[i - k]
        }),
{
    let m = match metadata {
        Some(m) => Some(bytes_contents(*m)),
        None => None,
    };
    let d = match data {
        Some(d) => Some(bytes_contents(*d)),
        None => None,
    };
    lemma_payload_bytes(m, d);
}

/// The length of a payload is three and the length of the metadata where there is metadata, and
/// the length of the data where there is data.
pub proof fn payload_len_adds_up(metadata: Option<&Bytes>, data: Option<&Bytes>, r: usize)
    requires
        call_ensures(PayloadSupport::len, (metadata, data), r),
    ensures
        r == match metadata {
            Some(m) => 3 + bytes_contents(*m).len() as int,
            None => 0,
        } + match data {
            Some(d) => bytes_contents(*d).len() as int,
            None => 0,
        },
{
    let m = match metadata {
        Some(m) => Some(bytes_contents(*m)),
        None => None,
    };
    let d = match data {
        Some(d) => Some(bytes_contents(*d)),
        None => None,
    };
    lemma_payload_bytes(m, d);
}

/// The error of a frame that is too short names the length that was asked for.
pub proof fn too_short_names_its_length<T>(n: usize, r: RSocketResult<T>)
    requires
        call_ensures(too_short::<T>, (n,), r),
    ensures
        r matches Err(e) && (e.kind matches ErrorKind::LengthTooShort(k) && k == n),
{
}

/// An error made of a kind is of that kind.
pub proof fn error_keeps_its_kind(kind: ErrorKind, r: RSocketError)
    requires
        call_ensures(<RSocketError as From<ErrorKind>>::from, (kind,), r),
    ensures
        r.kind == kind,
{
}

/// A builder starts with the stream and the flags that it is given, without a limit, metadata or
/// data, however it is made.
pub proof fn new_builder_is_empty(stream_id: u32, flag: u16, r: RequestChannelBuilder)
    requires
        call_ensures(RequestChannelBuilder::new, (stream_id, flag), r) || call_ensures(
            RequestChannel::builder,
            (stream_id, flag),
            r,
        ),
    ensures
        r@.stream_id == stream_id,
        r@.flag == flag,
        r@.value.initial_request_n == REQUEST_MAX,
        r@.value.metadata is None,
        r@.value.data is None,
{
}

/// Setting the number of items sets it and nothing else.
pub proof fn set_initial_request_n_sets_it_alone(
    builder: RequestChannelBuilder,
    n: u32,
    r: RequestChannelBuilder,
)
    requires
        call_ensures(RequestChannelBuilder::set_initial_request_n, (builder, n), r),
    ensures
        r@.value.initial_request_n == n,
        r@.value.metadata == builder@.value.metadata,
        r@.value.data == builder@.value.data,
        r@.stream_id == builder@.stream_id,
        r@.flag == builder@.flag,
{
}

/// Setting the data sets it, as it is, and nothing else.
pub proof fn set_data_sets_it_alone(
    builder: RequestChannelBuilder,
    data: Bytes,
    r: RequestChannelBuilder,
)
    requires
        call_ensures(RequestChannelBuilder::set_data, (builder, data), r),
    ensures
        r@.value.data == Some(bytes_contents(data)),
        r@.value.metadata == builder@.value.metadata,
        r@.value.initial_request_n == builder@.value.initial_request_n,
        r@.stream_id == builder@.stream_id,
        r@.flag == builder@.flag,
{
}

/// Setting the metadata sets it, as it is, and the flag that announces it, and nothing else.
pub proof fn set_metadata_sets_it_and_its_flag(
    builder: RequestChannelBuilder,
    metadata: Bytes,
    r: RequestChannelBuilder,
)
    requires
        call_ensures(RequestChannelBuilder::set_metadata, (builder, metadata), r),
    ensures
        r@.value.metadata == Some(bytes_contents(metadata)),
        r@.value.data == builder@.value.data,
        r@.value.initial_request_n == builder@.value.initial_request_n,
        r@.stream_id == builder@.stream_id,
        r@.flag & Frame::FLAG_METADATA != 0,
        r@.flag & !Frame::FLAG_METADATA == builder@.flag & !Frame::FLAG_METADATA,
{
    let flag = builder@.flag;
    assert((flag | 0x0100u16) & 0x0100u16 != 0) by (bit_vector);
    assert((flag | 0x0100u16) & !0x0100u16 == flag & !0x0100u16) by (bit_vector);
}

/// Setting all sets or removes the data and the metadata, as they are, sets the flag that
/// announces metadata if and only if there is some, and nothing else.
pub proof fn set_all_sets_both_and_the_flag(
    builder: RequestChannelBuilder,
    data: Option<Bytes>,
    metadata: Option<Bytes>,
    r: RequestChannelBuilder,
)
    requires
        call_ensures(RequestChannelBuilder::set_all, (builder, (data, metadata)), r),
    ensures
        match data {
            Some(d) => r@.value.data == Some(bytes_contents(d)),
            None => r@.value.data is None,
        },
        match metadata {
            Some(m) => r@.value.metadata == Some(bytes_contents(m)),
            None => r@.value.metadata is None,
        },
        r@.value.initial_request_n == builder@.value.initial_request_n,
        r@.stream_id == builder@.stream_id,
        r@.flag & Frame::FLAG_METADATA != 0 <==> metadata is Some,
        r@.flag & !Frame::FLAG_METADATA == builder@.flag & !Frame::FLAG_METADATA,
{
    let flag = builder@.flag;
    assert((flag | 0x0100u16) & 0x0100u16 != 0) by (bit_vector);
    assert((flag & !0x0100u16) & 0x0100u16 == 0) by (bit_vector);
    assert((flag | 0x0100u16) & !0x0100u16 == flag & !0x0100u16) by (bit_vector);
    assert((flag & !0x0100u16) & !0x0100u16 == flag & !0x0100u16) by (bit_vector);
}

/// The frame has the stream, the flags and the body that the builder was given.
pub proof fn build_keeps_everything(builder: RequestChannelBuilder, r: Frame)
    requires
        call_ensures(RequestChannelBuilder::build, (builder,), r),
    ensures
        r.stream_id == builder@.stream_id,
        r.flag == builder@.flag,
        r.body matches Body::RequestChannel(c) && {
            &&& c@.initial_request_n == builder@.value.initial_request_n
            &&& c@.metadata == builder@.value.metadata
            &&& c@.data == builder@.value.data
        },
{
}

/// The getters give what the body holds.
pub proof fn getters_give_what_is_held(
    c: &RequestChannel,
    n: u32,
    metadata: Option<&Bytes>,
    data: Option<&Bytes>,
)
    requires
        call_ensures(RequestChannel::get_initial_request_n, (c,), n),
        call_ensures(RequestChannel::get_metadata, (c,), metadata),
        call_ensures(RequestChannel::get_data, (c,), data),
    ensures
        n == c@.initial_request_n,
        match metadata {
            Some(m) => c@.metadata == Some(bytes_contents(*m)),
            None => c@.metadata is None,
        },
        match data {
            Some(d) => c@.data == Some(bytes_contents(*d)),
            None => c@.data is None,
        },
{
}

/// A body is split into its data and its metadata, in this order.
pub proof fn split_gives_data_then_metadata(
    c: RequestChannel,
    r: (Option<Bytes>, Option<Bytes>),
)
    requires
        call_ensures(RequestChannel::split, (c,), r),
    ensures
        match r.0 {
            Some(d) => c@.data == Some(bytes_contents(d)),
            None => c@.data is None,
        },
        match r.1 {
            Some(m) => c@.metadata == Some(bytes_contents(m)),
            None => c@.metadata is None,
        },
{
}

/// A frame gives back the stream, the body and the flags that it was made of.
pub proof fn frame_gives_back_its_parts(
    stream_id: u32,
    body: Body,
    flag: u16,
    frame: Frame,
    got: (u32, u16, Body),
)
    requires
        call_ensures(Frame::new, (stream_id, body, flag), frame),
        call_ensures(Frame::get_stream_id, (&frame,), got.0),
        call_ensures(Frame::get_flag, (&frame,), got.1),
        call_ensures(Frame::get_body, (frame,), got.2),
    ensures
        frame.stream_id == stream_id && got.0 == stream_id,
        frame.flag == flag && got.1 == flag,
        frame.body == body && got.2 == body,
{
}

} // verus!
