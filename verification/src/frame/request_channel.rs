//! The body of a `REQUEST_CHANNEL` frame.

use super::utils::{read_payload, too_short};
use super::{Body, Frame, PayloadSupport, REQUEST_MAX};
use crate::buf::{buffer_len, get_u32, put_u32};
use crate::errors::{ErrorKind, RSocketResult};
use crate::utils::Writeable;
use bytes::{Bytes, BytesMut};
use vstd::prelude::*;

verus! {

use super::has_flag;
use super::utils::{
    contents_of, contents_of_ref, parse_payload, payload_bytes, read_inverts_write, readable,
    unread_payload, write_inverts_read, U24_MAX,
};
use crate::buf::{be_u32, be_u32_bytes, buffer_contents, bytes_contents};

/// A request that opens a stream in both directions.
#[derive(Debug, PartialEq)]
pub struct RequestChannel {
    initial_request_n: u32,
    metadata: Option<Bytes>,
    data: Option<Bytes>,
}

/// What a [`RequestChannel`] stands for.
#[verifier::ext_equal]
pub struct RequestChannelValue {
    pub initial_request_n: u32,
    pub metadata: Option<Seq<u8>>,
    pub data: Option<Seq<u8>>,
}

impl View for RequestChannel {
    type V = RequestChannelValue;

    closed spec fn view(&self) -> RequestChannelValue {
        RequestChannelValue {
            initial_request_n: self.initial_request_n,
            metadata: contents_of(self.metadata),
            data: contents_of(self.data),
        }
    }
}

impl RequestChannelValue {
    /// The encoding: the number of items, then metadata and data.
    pub open spec fn encoded(self) -> Seq<u8> {
        be_u32_bytes(self.initial_request_n) + payload_bytes(self.metadata, self.data)
    }

    /// What the bytes `s` hold behind the flags `flag`, or, where `s` ends too early, the number
    /// of bytes that had to be there.
    pub open spec fn parse(flag: u16, s: Seq<u8>) -> Result<RequestChannelValue, int> {
        if s.len() < 4 {
            Err(4)
        } else {
            match parse_payload(flag, s.skip(4)) {
                Ok((metadata, data)) => Ok(
                    RequestChannelValue {
                        initial_request_n: be_u32(s.take(4)) as u32,
                        metadata,
                        data,
                    },
                ),
                Err(n) => Err(n),
            }
        }
    }

    /// The bytes of `s` that a reader leaves unread.
    pub open spec fn unread(flag: u16, s: Seq<u8>) -> Seq<u8> {
        if s.len() < 4 {
            s
        } else {
            unread_payload(flag, s.skip(4))
        }
    }

    /// This value as a reader finds it: present but empty data leaves no trace in the encoding.
    pub open spec fn as_read(self) -> RequestChannelValue {
        RequestChannelValue { data: readable(self.data), ..self }
    }
}

/// Puts a `REQUEST_CHANNEL` frame together.
pub struct RequestChannelBuilder {
    stream_id: u32,
    flag: u16,
    value: RequestChannel,
}

/// What a [`RequestChannelBuilder`] stands for.
#[verifier::ext_equal]
pub struct RequestChannelBuilderValue {
    pub stream_id: u32,
    pub flag: u16,
    pub value: RequestChannelValue,
}

impl View for RequestChannelBuilder {
    type V = RequestChannelBuilderValue;

    closed spec fn view(&self) -> RequestChannelBuilderValue {
        RequestChannelBuilderValue {
            stream_id: self.stream_id,
            flag: self.flag,
            value: self.value@,
        }
    }
}

impl RequestChannelBuilderValue {
    /// No metadata, no data, and no limit on the number of items.
    pub open spec fn fresh(stream_id: u32, flag: u16) -> RequestChannelBuilderValue {
        RequestChannelBuilderValue {
            stream_id,
            flag,
            value: RequestChannelValue {
                initial_request_n: REQUEST_MAX,
                metadata: None,
                data: None,
            },
        }
    }

    /// With another number of items.
    pub open spec fn with_initial_request_n(self, n: u32) -> RequestChannelBuilderValue {
        RequestChannelBuilderValue {
            value: RequestChannelValue { initial_request_n: n, ..self.value },
            ..self
        }
    }

    /// With other data.
    pub open spec fn with_data(self, data: Seq<u8>) -> RequestChannelBuilderValue {
        RequestChannelBuilderValue {
            value: RequestChannelValue { data: Some(data), ..self.value },
            ..self
        }
    }

    /// With other metadata, which the flags announce.
    pub open spec fn with_metadata(self, metadata: Seq<u8>) -> RequestChannelBuilderValue {
        RequestChannelBuilderValue {
            flag: self.flag | Frame::FLAG_METADATA,
            value: RequestChannelValue { metadata: Some(metadata), ..self.value },
            ..self
        }
    }

    /// With other data and other metadata, either of which may be none; the flags announce the
    /// metadata if and only if there is some.
    pub open spec fn with_all(
        self,
        data: Option<Seq<u8>>,
        metadata: Option<Seq<u8>>,
    ) -> RequestChannelBuilderValue {
        RequestChannelBuilderValue {
            flag: if metadata is Some {
                self.flag | Frame::FLAG_METADATA
            } else {
                self.flag & !Frame::FLAG_METADATA
            },
            value: RequestChannelValue { metadata, data, ..self.value },
            ..self
        }
    }

    /// The same stream, and the same flags but for the one that announces metadata.
    pub open spec fn same_stream_and_other_flags(self, other: Self) -> bool {
        &&& self.stream_id == other.stream_id
        &&& self.flag & !Frame::FLAG_METADATA == other.flag & !Frame::FLAG_METADATA
    }

    /// The flags announce metadata if and only if there is some.
    pub open spec fn announces_metadata(self) -> bool {
        has_flag(self.flag, Frame::FLAG_METADATA) == (self.value.metadata is Some)
    }
}

impl RequestChannelBuilder {
    /// A builder for a frame of the stream `stream_id` with the flags `flag`.
    pub fn new(stream_id: u32, flag: u16) -> (r: RequestChannelBuilder)
        ensures
            r@ == RequestChannelBuilderValue::fresh(stream_id, flag),
    {
        RequestChannelBuilder {
            stream_id,
            flag,
            value: RequestChannel { initial_request_n: REQUEST_MAX, metadata: None, data: None },
        }
    }

    /// The frame that was put together.
    pub fn build(self) -> (r: Frame)
        ensures
            r.stream_id == self@.stream_id,
            r.flag == self@.flag,
            r.body matches Body::RequestChannel(v) && v@ == self@.value,
    {
        Frame::new(self.stream_id, Body::RequestChannel(self.value), self.flag)
    }

    /// Sets the number of items that the requester is ready to receive.
    pub fn set_initial_request_n(self, n: u32) -> (r: Self)
        ensures
            r@ == self@.with_initial_request_n(n),
    {
        let mut builder = self;
        builder.value.initial_request_n = n;
        builder
    }

    /// Sets or removes the data and the metadata at once, given in this order.
    pub fn set_all(self, data_and_metadata: (Option<Bytes>, Option<Bytes>)) -> (r: Self)
        ensures
            r@ == self@.with_all(
                contents_of(data_and_metadata.0),
                contents_of(data_and_metadata.1),
            ),
    {
        let mut builder = self;
        builder.value.data = data_and_metadata.0;
        match data_and_metadata.1 {
            Some(m) => {
                builder.value.metadata = Some(m);
                builder.flag |= Frame::FLAG_METADATA;
            },
            None => {
                builder.value.metadata = None;
                builder.flag &= !Frame::FLAG_METADATA;
            },
        }
        builder
    }

    /// Sets the metadata.
    pub fn set_metadata(self, metadata: Bytes) -> (r: Self)
        ensures
            r@ == self@.with_metadata(bytes_contents(metadata)),
    {
        let mut builder = self;
        builder.value.metadata = Some(metadata);
        builder.flag |= Frame::FLAG_METADATA;
        builder
    }

    /// Sets the data.
    pub fn set_data(self, data: Bytes) -> (r: Self)
        ensures
            r@ == self@.with_data(bytes_contents(data)),
    {
        let mut builder = self;
        builder.value.data = Some(data);
        builder
    }
}

impl RequestChannel {
    /// Reads a body that stands behind the flags `flag`.
    pub fn decode(flag: u16, bf: &mut BytesMut) -> (r: RSocketResult<RequestChannel>)
        ensures
            match RequestChannelValue::parse(flag, buffer_contents(*old(bf))) {
                Ok(v) => r matches Ok(c) && c@ == v,
                Err(n) => r matches Err(e) && (e.kind matches ErrorKind::LengthTooShort(k) && k
                    == n),
            },
            buffer_contents(*final(bf)) == RequestChannelValue::unread(
                flag,
                buffer_contents(*old(bf)),
            ),
    {
        if buffer_len(bf) < 4 {
            too_short(4)
        } else {
            let initial_request_n: u32 = get_u32(bf);
            match read_payload(flag, bf) {
                Ok((metadata, data)) => Ok(RequestChannel { initial_request_n, metadata, data }),
                Err(e) => Err(e),
            }
        }
    }

    /// A builder for a frame of the stream `stream_id` with the flags `flag`.
    pub fn builder(stream_id: u32, flag: u16) -> (r: RequestChannelBuilder)
        ensures
            r@ == RequestChannelBuilderValue::fresh(stream_id, flag),
    {
        RequestChannelBuilder::new(stream_id, flag)
    }

    /// The number of items that the requester is ready to receive.
    pub fn get_initial_request_n(&self) -> (r: u32)
        ensures
            r == self@.initial_request_n,
    {
        self.initial_request_n
    }

    /// The metadata.
    pub fn get_metadata(&self) -> (r: Option<&Bytes>)
        ensures
            contents_of_ref(r) == self@.metadata,
    {
        match &self.metadata {
            Some(b) => Some(b),
            None => None,
        }
    }

    /// The data.
    pub fn get_data(&self) -> (r: Option<&Bytes>)
        ensures
            contents_of_ref(r) == self@.data,
    {
        match &self.data {
            Some(b) => Some(b),
            None => None,
        }
    }

    /// The data and the metadata, in this order.
    pub fn split(self) -> (r: (Option<Bytes>, Option<Bytes>))
        ensures
            contents_of(r.0) == self@.data,
            contents_of(r.1) == self@.metadata,
    {
        (self.data, self.metadata)
    }
}

impl Writeable for RequestChannel {
    open spec fn encoding(&self) -> Seq<u8> {
        self@.encoded()
    }

    fn write_to(&self, bf: &mut BytesMut) {
        let ghost s = buffer_contents(*bf);
        put_u32(bf, self.initial_request_n);
        PayloadSupport::write(bf, self.get_metadata(), self.get_data());
        assert(buffer_contents(*bf) =~= s + self@.encoded());
    }

    fn len(&self) -> (n: usize) {
        4 + PayloadSupport::len(self.get_metadata(), self.get_data())
    }
}

/// Four bytes hold every number of 32 bits.
proof fn lemma_be_u32_round_trip(n: u32)
    ensures
        be_u32_bytes(n).len() == 4,
        be_u32(be_u32_bytes(n)) == n,
{
}

/// A number of four bytes is written back as the bytes that it was read from.
proof fn lemma_be_u32_bytes_of_value(s: Seq<u8>)
    requires
        s.len() == 4,
    ensures
        0 <= be_u32(s) <= u32::MAX,
        be_u32_bytes(be_u32(s) as u32) == s,
{
    let n = be_u32(s) as u32;
    assert(n / 0x100_0000 == s[0]);
    assert(n / 0x1_0000 == s[0] * 0x100 + s[1]);
    assert(n / 0x100 == s[0] * 0x1_0000 + s[1] * 0x100 + s[2]);
    assert(be_u32_bytes(n) =~= s);
}

/// What is encoded is decoded to the same value, behind flags that announce the metadata if and
/// only if there is some, with metadata of a length that 24 bits can hold, and no byte is left
/// unread. Data that is present but empty is decoded as absent.
pub proof fn decode_inverts_encode(flag: u16, value: RequestChannelValue)
    requires
        has_flag(flag, Frame::FLAG_METADATA) == (value.metadata is Some),
        value.metadata matches Some(m) ==> m.len() <= U24_MAX,
    ensures
        RequestChannelValue::parse(flag, value.encoded()) == Ok::<_, int>(value.as_read()),
        RequestChannelValue::unread(flag, value.encoded()) == Seq::<u8>::empty(),
{
    lemma_be_u32_round_trip(value.initial_request_n);
    read_inverts_write(flag, value.metadata, value.data);
    let s = value.encoded();
    assert(s.take(4) =~= be_u32_bytes(value.initial_request_n));
    assert(s.skip(4) =~= payload_bytes(value.metadata, value.data));
}

/// What is decoded is encoded to the same bytes, and it has metadata if and only if the flags
/// announced it.
pub proof fn encode_inverts_decode(flag: u16, s: Seq<u8>)
    ensures
        RequestChannelValue::parse(flag, s) matches Ok(value) ==> {
            &&& value.encoded() == s
            &&& has_flag(flag, Frame::FLAG_METADATA) == (value.metadata is Some)
        },
{
    if let Ok(value) = RequestChannelValue::parse(flag, s) {
        lemma_be_u32_bytes_of_value(s.take(4));
        write_inverts_read(flag, s.skip(4));
        assert(s =~= s.take(4) + s.skip(4));
    }
}

/// Setting and clearing the metadata bit: the last of the two counts, and no other bit changes.
proof fn lemma_metadata_bit(flag: u16)
    ensures
        has_flag(flag | Frame::FLAG_METADATA, Frame::FLAG_METADATA),
        !has_flag(flag & !Frame::FLAG_METADATA, Frame::FLAG_METADATA),
        (flag | Frame::FLAG_METADATA) | Frame::FLAG_METADATA == flag | Frame::FLAG_METADATA,
        (flag & !Frame::FLAG_METADATA) | Frame::FLAG_METADATA == flag | Frame::FLAG_METADATA,
        (flag | Frame::FLAG_METADATA) & !Frame::FLAG_METADATA == flag & !Frame::FLAG_METADATA,
        (flag & !Frame::FLAG_METADATA) & !Frame::FLAG_METADATA == flag & !Frame::FLAG_METADATA,
{
    assert((flag | 0x0100u16) & 0x0100u16 != 0) by (bit_vector);
    assert((flag & !0x0100u16) & 0x0100u16 == 0) by (bit_vector);
    assert((flag | 0x0100u16) | 0x0100u16 == flag | 0x0100u16) by (bit_vector);
    assert((flag & !0x0100u16) | 0x0100u16 == flag | 0x0100u16) by (bit_vector);
    assert((flag | 0x0100u16) & !0x0100u16 == flag & !0x0100u16) by (bit_vector);
    assert((flag & !0x0100u16) & !0x0100u16 == flag & !0x0100u16) by (bit_vector);
}

/// The flags of a builder announce metadata if and only if there is some, where it started from
/// flags without the metadata bit, got metadata, or got data and metadata at once; every further
/// step keeps that so.
pub proof fn builder_announces_metadata(
    builder: RequestChannelBuilderValue,
    stream_id: u32,
    flag: u16,
    n: u32,
    data: Seq<u8>,
    metadata: Seq<u8>,
    all: (Option<Seq<u8>>, Option<Seq<u8>>),
)
    ensures
        RequestChannelBuilderValue::fresh(stream_id, flag).announces_metadata() <==> !has_flag(
            flag,
            Frame::FLAG_METADATA,
        ),
        builder.with_metadata(metadata).announces_metadata(),
        builder.with_all(all.0, all.1).announces_metadata(),
        builder.announces_metadata() ==> builder.with_data(data).announces_metadata(),
        builder.announces_metadata() ==> builder.with_initial_request_n(n).announces_metadata(),
{
    lemma_metadata_bit(builder.flag);
}

/// The body of a frame that a builder put together is read back, behind the flags of that frame,
/// as it was put together, if the flags announce metadata if and only if there is some and the
/// metadata has a length that 24 bits can hold. Data that is present but empty is read back as
/// absent.
pub proof fn built_frame_is_read_back(builder: RequestChannelBuilderValue)
    requires
        builder.announces_metadata(),
        builder.value.metadata matches Some(m) ==> m.len() <= U24_MAX,
    ensures
        RequestChannelValue::parse(builder.flag, builder.value.encoded()) == Ok::<_, int>(
            builder.value.as_read(),
        ),
{
    decode_inverts_encode(builder.flag, builder.value);
}

/// The data and the metadata that a builder got at once are those that its value is split into.
pub proof fn split_inverts_set_all(
    builder: RequestChannelBuilderValue,
    data: Option<Seq<u8>>,
    metadata: Option<Seq<u8>>,
)
    ensures
        builder.with_all(data, metadata).value.data == data,
        builder.with_all(data, metadata).value.metadata == metadata,
{
}

/// No step of a builder changes the stream, or a flag other than the one that announces
/// metadata.
pub proof fn builder_keeps_stream_and_other_flags(
    builder: RequestChannelBuilderValue,
    n: u32,
    data: Seq<u8>,
    metadata: Seq<u8>,
    all: (Option<Seq<u8>>, Option<Seq<u8>>),
)
    ensures
        builder.with_initial_request_n(n).same_stream_and_other_flags(builder),
        builder.with_data(data).same_stream_and_other_flags(builder),
        builder.with_metadata(metadata).same_stream_and_other_flags(builder),
        builder.with_all(all.0, all.1).same_stream_and_other_flags(builder),
{
    lemma_metadata_bit(builder.flag);
}

/// The steps of a builder can be taken in any order, and the last step of its kind counts.
pub proof fn builder_steps_commute(
    builder: RequestChannelBuilderValue,
    n: u32,
    data: Seq<u8>,
    metadata: Seq<u8>,
    earlier: (Option<Seq<u8>>, Option<Seq<u8>>),
    later: (Option<Seq<u8>>, Option<Seq<u8>>),
)
    ensures
        builder.with_data(data).with_metadata(metadata) == builder.with_metadata(
            metadata,
        ).with_data(data),
        builder.with_data(data).with_initial_request_n(n) == builder.with_initial_request_n(
            n,
        ).with_data(data),
        builder.with_metadata(metadata).with_initial_request_n(n)
            == builder.with_initial_request_n(n).with_metadata(metadata),
        builder.with_data(data).with_metadata(metadata) == builder.with_all(
            Some(data),
            Some(metadata),
        ),
        builder.with_all(earlier.0, earlier.1).with_all(later.0, later.1) == builder.with_all(
            later.0,
            later.1,
        ),
{
    lemma_metadata_bit(builder.flag);
}

} // verus!
