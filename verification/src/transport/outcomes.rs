//! What each operation of one end of a connection does, told field by field of what it is given
//! and what it gives.

use super::{
    AcceptorKind, Action, Delivery, DuplexSocket, Handler, Handlers, SetupAction, StreamID,
};
use crate::errors::{ErrorKind, RSocketResult};
use crate::frame::{
    self, Body, Frame, Keepalive, MetadataPush, RequestFNF, RequestResponse, RequestStream, Setup,
    ERR_APPLICATION, REQUEST_MAX,
};
use crate::payload::{Payload, SetupPayload};
use vstd::prelude::*;

verus! {

use crate::buf::bytes_contents;

/// The bits of the flags that are sent, with and without the one that announces metadata.
proof fn lemma_sent_bits()
    ensures
        0u16 | Frame::FLAG_METADATA == Frame::FLAG_METADATA,
        Frame::FLAG_METADATA & Frame::FLAG_METADATA != 0,
        0u16 & Frame::FLAG_METADATA == 0,
        0u16 & Frame::FLAG_RESPOND == 0,
        Frame::FLAG_NEXT & Frame::FLAG_METADATA == 0,
        Frame::FLAG_COMPLETE & Frame::FLAG_METADATA == 0,
        (Frame::FLAG_NEXT | Frame::FLAG_METADATA) & Frame::FLAG_METADATA != 0,
        (Frame::FLAG_COMPLETE | Frame::FLAG_METADATA) & Frame::FLAG_METADATA != 0,
{
    assert(0u16 | 0x0100u16 == 0x0100u16) by (bit_vector);
    assert(0x0100u16 & 0x0100u16 != 0) by (bit_vector);
    assert(0u16 & 0x0100u16 == 0) by (bit_vector);
    assert(0u16 & 0x0080u16 == 0) by (bit_vector);
    assert(0x0020u16 & 0x0100u16 == 0) by (bit_vector);
    assert(0x0040u16 & 0x0100u16 == 0) by (bit_vector);
    assert((0x0020u16 | 0x0100u16) & 0x0100u16 != 0) by (bit_vector);
    assert((0x0040u16 | 0x0100u16) & 0x0100u16 != 0) by (bit_vector);
}

/// The first id is the one that was given; each id is two more than the one before, where it does
/// not wrap around.
pub proof fn ids_step_by_two(first: u32, made: StreamID, ids: &mut StreamID, id: u32)
    requires
        call_ensures(<StreamID as From<u32>>::from, (first,), made),
        call_ensures(StreamID::next, (ids,), id),
    ensures
        made.next == first,
        id == old(ids).next,
        id < 0xFFFF_FFFE ==> final(ids).next == id + 2,
        id >= 0xFFFF_FFFE ==> final(ids).next == id - 0xFFFF_FFFE,
{
}

/// A new end starts at the id that it was given and awaits no answer.
pub proof fn new_end_awaits_nothing<R, S>(
    first: u32,
    socket: DuplexSocket<R, S>,
    handlers: Handlers<R, S>,
    sid: u32,
)
    requires
        call_ensures(DuplexSocket::<R, S>::new, (first,), socket),
        call_ensures(Handlers::<R, S>::new, (), handlers),
    ensures
        socket@.next_stream_id == first,
        !socket@.handlers.contains_key(sid),
        !handlers@.contains_key(sid),
{
}

/// An end tells whether it awaits answers on a stream.
pub proof fn has_handler_tells_what_is_awaited<R, S>(
    socket: &DuplexSocket<R, S>,
    sid: u32,
    r: bool,
)
    requires
        call_ensures(DuplexSocket::<R, S>::has_handler, (socket, sid), r),
    ensures
        r <==> socket@.handlers.contains_key(sid),
{
}

/// The frame that opens a connection belongs to no stream, carries each part of the setup in its
/// own place, announces metadata if and only if there is some, and has no other flag.
pub proof fn setup_sends_every_part<R, S>(
    socket: &DuplexSocket<R, S>,
    setup: SetupPayload,
    r: Frame,
)
    requires
        call_ensures(DuplexSocket::<R, S>::setup, (socket, setup), r),
    ensures
        r.stream_id == 0,
        r.flag == (if setup.metadata is Some {
            Frame::FLAG_METADATA
        } else {
            0
        }),
        r.flag & Frame::FLAG_METADATA != 0 <==> setup.metadata is Some,
        r.body matches Body::Setup(v) && {
            &&& v.data == setup.data
            &&& v.metadata == setup.metadata
            &&& v.mime_data == setup.data_mime_type
            &&& v.mime_metadata == setup.metadata_mime_type
            &&& v.keepalive == setup.keepalive_interval
            &&& v.lifetime == setup.keepalive_lifetime
        },
{
    lemma_sent_bits();
}

/// A generating acceptor gets the setup as it is, an empty one leads to no answers, and a
/// responder that is there already is kept.
pub proof fn on_setup_hands_the_setup_on<R, S>(
    acceptor: AcceptorKind,
    setup: SetupPayload,
    r: SetupAction,
)
    requires
        call_ensures(DuplexSocket::<R, S>::on_setup, (acceptor, setup), r),
    ensures
        acceptor is Generate ==> (r matches SetupAction::Generate(got) && {
            &&& got.data == setup.data
            &&& got.metadata == setup.metadata
            &&& got.data_mime_type == setup.data_mime_type
            &&& got.metadata_mime_type == setup.metadata_mime_type
            &&& got.keepalive_interval == setup.keepalive_interval
            &&& got.keepalive_lifetime == setup.keepalive_lifetime
        }),
        acceptor is Empty ==> r is Empty,
        acceptor is Direct ==> r is Keep,
{
}

/// A setup frame leaves the state as it is. A generating acceptor gets each part of the frame in
/// its own place, an empty one leads to no answers, and a responder that is there already is kept.
pub proof fn setup_frame_is_handed_on<R, S: Clone>(
    socket: &mut DuplexSocket<R, S>,
    acceptor: AcceptorKind,
    msg: Frame,
    v: Setup,
    r: Action<R, S>,
)
    requires
        msg.body == Body::Setup(v),
        call_ensures(DuplexSocket::<R, S>::on_frame, (socket, acceptor, msg), r),
    ensures
        final(socket)@ == old(socket)@,
        r matches Action::Setup(action) && {
            &&& acceptor is Generate ==> (action matches SetupAction::Generate(got) && {
                &&& got.data == v.data
                &&& got.metadata == v.metadata
                &&& got.data_mime_type == v.mime_data
                &&& got.metadata_mime_type == v.mime_metadata
                &&& got.keepalive_interval == v.keepalive
                &&& got.keepalive_lifetime == v.lifetime
            })
            &&& acceptor is Empty ==> action is Empty
            &&& acceptor is Direct ==> action is Keep
        },
{
}

/// When an end with a generating acceptor handles the frame that its peer opened the connection
/// with, the acceptor gets the very setup that the peer was given.
pub proof fn generating_acceptor_gets_the_setup<R, S: Clone>(
    peer: &DuplexSocket<R, S>,
    setup: SetupPayload,
    msg: Frame,
    socket: &mut DuplexSocket<R, S>,
    r: Action<R, S>,
)
    requires
        call_ensures(DuplexSocket::<R, S>::setup, (peer, setup), msg),
        call_ensures(
            DuplexSocket::<R, S>::on_frame,
            (socket, AcceptorKind::Generate, msg),
            r,
        ),
    ensures
        r == Action::<R, S>::Setup(SetupAction::Generate(setup)),
        final(socket)@ == old(socket)@,
{
}

/// A push of metadata is handed on with its metadata, without data, and leaves the state as it
/// is.
pub proof fn metadata_push_frame_is_handed_on<R, S: Clone>(
    socket: &mut DuplexSocket<R, S>,
    acceptor: AcceptorKind,
    msg: Frame,
    v: MetadataPush,
    r: Action<R, S>,
)
    requires
        msg.body == Body::MetadataPush(v),
        call_ensures(DuplexSocket::<R, S>::on_frame, (socket, acceptor, msg), r),
    ensures
        final(socket)@ == old(socket)@,
        r matches Action::MetadataPush(payload) && payload.metadata == v.metadata
            && payload.data is None,
{
}

/// A request without an answer is handed on with its stream, its data as data and its metadata as metadata, and leaves
/// the state as it is.
pub proof fn fire_and_forget_frame_is_handed_on<R, S: Clone>(
    socket: &mut DuplexSocket<R, S>,
    acceptor: AcceptorKind,
    msg: Frame,
    v: RequestFNF,
    r: Action<R, S>,
)
    requires
        msg.body == Body::RequestFNF(v),
        call_ensures(DuplexSocket::<R, S>::on_frame, (socket, acceptor, msg), r),
    ensures
        final(socket)@ == old(socket)@,
        r matches Action::FireAndForget { stream_id, payload } && {
            &&& stream_id == msg.stream_id
            &&& payload.data == v.data
            &&& payload.metadata == v.metadata
        },
{
}

/// A request for one answer is handed on with its stream, its data as data and its metadata as metadata, and leaves
/// the state as it is.
pub proof fn request_response_frame_is_handed_on<R, S: Clone>(
    socket: &mut DuplexSocket<R, S>,
    acceptor: AcceptorKind,
    msg: Frame,
    v: RequestResponse,
    r: Action<R, S>,
)
    requires
        msg.body == Body::RequestResponse(v),
        call_ensures(DuplexSocket::<R, S>::on_frame, (socket, acceptor, msg), r),
    ensures
        final(socket)@ == old(socket)@,
        r matches Action::RequestResponse { stream_id, payload } && {
            &&& stream_id == msg.stream_id
            &&& payload.data == v.data
            &&& payload.metadata == v.metadata
        },
{
}

/// A request for a stream is handed on with its stream, its data as data and its metadata as metadata, and leaves
/// the state as it is.
pub proof fn request_stream_frame_is_handed_on<R, S: Clone>(
    socket: &mut DuplexSocket<R, S>,
    acceptor: AcceptorKind,
    msg: Frame,
    v: RequestStream,
    r: Action<R, S>,
)
    requires
        msg.body == Body::RequestStream(v),
        call_ensures(DuplexSocket::<R, S>::on_frame, (socket, acceptor, msg), r),
    ensures
        final(socket)@ == old(socket)@,
        r matches Action::RequestStream { stream_id, payload } && {
            &&& stream_id == msg.stream_id
            &&& payload.data == v.data
            &&& payload.metadata == v.metadata
        },
{
}

/// An answer on a stream goes, as it is, to whoever awaits it there: to the sender of a request,
/// which then awaits no more, or to a clone of the sender of a stream, if the answer is an item;
/// the stream is awaited on, by the same sender, unless the answer ends it. No other stream is
/// touched.
pub proof fn on_payload_delivers_to_its_stream<R, S: Clone>(
    socket: &mut DuplexSocket<R, S>,
    sid: u32,
    flag: u16,
    input: Payload,
    r: Delivery<R, S>,
    other: u32,
)
    requires
        old(socket)@.handlers.contains_key(sid),
        call_ensures(DuplexSocket::<R, S>::on_payload, (socket, sid, flag, input), r),
    ensures
        match old(socket)@.handlers[sid] {
            Handler::Request(sender) => r matches Delivery::Reply(to, got)
                && to == sender && got.data == input.data && got.metadata == input.metadata,
            Handler::Stream(sender) => if flag & Frame::FLAG_NEXT != 0 {
                &&& r matches Delivery::Next(to, got)
                &&& cloned(sender, to)
                &&& got.data == input.data
                &&& got.metadata == input.metadata
            } else {
                r is Nothing
            },
        },
        final(socket)@.handlers.contains_key(sid) <==> old(socket)@.handlers[sid] is Stream
            && flag & Frame::FLAG_COMPLETE == 0,
        final(socket)@.handlers.contains_key(sid) ==> final(socket)@.handlers[sid]
            == old(socket)@.handlers[sid],
        other != sid ==> {
            &&& final(socket)@.handlers.contains_key(other) <==> old(
                socket,
            )@.handlers.contains_key(other)
            &&& old(socket)@.handlers.contains_key(other) ==> final(socket)@.handlers[other]
                == old(socket)@.handlers[other]
        },
        final(socket)@.next_stream_id == old(socket)@.next_stream_id,
{
}

/// The frame of an answer is delivered by its own stream, flags, data and metadata, as
/// `on_payload_delivers_to_its_stream` says of an answer.
pub proof fn answer_frame_is_delivered<R, S: Clone>(
    socket: &mut DuplexSocket<R, S>,
    acceptor: AcceptorKind,
    msg: Frame,
    v: frame::Payload,
    r: Action<R, S>,
    other: u32,
)
    requires
        msg.body == Body::Payload(v),
        old(socket)@.handlers.contains_key(msg.stream_id),
        call_ensures(DuplexSocket::<R, S>::on_frame, (socket, acceptor, msg), r),
    ensures
        match old(socket)@.handlers[msg.stream_id] {
            Handler::Request(sender) => r matches Action::Deliver(Delivery::Reply(to, got))
                && to == sender && got.data == v.data && got.metadata == v.metadata,
            Handler::Stream(sender) => if msg.flag & Frame::FLAG_NEXT != 0 {
                &&& r matches Action::Deliver(Delivery::Next(to, got))
                &&& cloned(sender, to)
                &&& got.data == v.data
                &&& got.metadata == v.metadata
            } else {
                r == Action::<R, S>::Deliver(Delivery::Nothing)
            },
        },
        final(socket)@.handlers.contains_key(msg.stream_id) <==> old(socket)@.handlers[msg.stream_id] is Stream
            && msg.flag & Frame::FLAG_COMPLETE == 0,
        final(socket)@.handlers.contains_key(msg.stream_id) ==> final(socket)@.handlers[msg.stream_id]
            == old(socket)@.handlers[msg.stream_id],
        other != msg.stream_id ==> {
            &&& final(socket)@.handlers.contains_key(other) <==> old(
                socket,
            )@.handlers.contains_key(other)
            &&& old(socket)@.handlers.contains_key(other) ==> final(socket)@.handlers[other]
                == old(socket)@.handlers[other]
        },
        final(socket)@.next_stream_id == old(socket)@.next_stream_id,
{
}

/// A keepalive frame leaves the state as it is. It is answered if and only if it asks for it, by a
/// keepalive frame of no stream that brings its data back and has no flag.
pub proof fn keepalive_frame_is_answered<R, S: Clone>(
    socket: &mut DuplexSocket<R, S>,
    acceptor: AcceptorKind,
    msg: Frame,
    v: Keepalive,
    r: Action<R, S>,
)
    requires
        msg.body == Body::Keepalive(v),
        call_ensures(DuplexSocket::<R, S>::on_frame, (socket, acceptor, msg), r),
    ensures
        final(socket)@ == old(socket)@,
        msg.flag & Frame::FLAG_RESPOND == 0 ==> r is Ignore,
        msg.flag & Frame::FLAG_RESPOND != 0 ==> (r matches Action::Send(sent) && {
            &&& sent.stream_id == 0
            &&& sent.flag == 0
            &&& sent.body matches Body::Keepalive(back)
            &&& back.last_received_position == 0
            &&& back.data == v.data
        }),
{
}

/// The answer to a keepalive frame belongs to no stream, brings the data back and has no flag.
pub proof fn on_keepalive_brings_the_data_back<R, S>(keepalive: Keepalive, r: Frame)
    requires
        call_ensures(DuplexSocket::<R, S>::on_keepalive, (keepalive,), r),
    ensures
        r.stream_id == 0,
        r.flag == 0,
        r.flag & Frame::FLAG_RESPOND == 0,
        r.body matches Body::Keepalive(back) && back.last_received_position == 0 && back.data
            == keepalive.data,
{
    lemma_sent_bits();
}

/// All other frames are ignored and leave the state as it is.
pub proof fn other_frames_are_ignored<R, S: Clone>(
    socket: &mut DuplexSocket<R, S>,
    acceptor: AcceptorKind,
    msg: Frame,
    r: Action<R, S>,
)
    requires
        msg.body is Resume || msg.body is ResumeOK || msg.body is RequestChannel || msg.body
            is RequestN || msg.body is Error || msg.body is Cancel || msg.body is Lease,
        call_ensures(DuplexSocket::<R, S>::on_frame, (socket, acceptor, msg), r),
    ensures
        final(socket)@ == old(socket)@,
        r is Ignore,
{
}

/// A request that came out well is answered on its stream by a frame that ends it, with the data
/// of the answer as data and its metadata as metadata, which the flags announce if and only if
/// there is some.
pub proof fn good_outcome_is_answered<R, S>(sid: u32, answer: Payload, r: Frame)
    requires
        call_ensures(DuplexSocket::<R, S>::on_request_response, (sid, Ok(answer)), r),
    ensures
        r.stream_id == sid,
        r.flag == (if answer.metadata is Some {
            Frame::FLAG_COMPLETE | Frame::FLAG_METADATA
        } else {
            Frame::FLAG_COMPLETE
        }),
        r.flag & Frame::FLAG_METADATA != 0 <==> answer.metadata is Some,
        r.body matches Body::Payload(v) && v.data == answer.data && v.metadata == answer.metadata,
{
    lemma_sent_bits();
}

/// A request that failed is answered on its stream by an error frame without flags, with the code
/// of an application error and the same text whatever the failure was.
pub proof fn failure_is_answered<R, S>(sid: u32, outcome: RSocketResult<Payload>, r: Frame)
    requires
        outcome is Err,
        call_ensures(DuplexSocket::<R, S>::on_request_response, (sid, outcome), r),
    ensures
        r.stream_id == sid,
        r.flag == 0,
        r.body matches Body::Error(v) && {
            &&& v.code == ERR_APPLICATION
            &&& v.data matches Some(text)
            &&& bytes_contents(text) == vstd::utf8::encode_utf8("TODO: should be error details"@)
        },
{
}

/// An item of a stream is answered on that stream by a frame that does not end it, with the data
/// of the item as data and its metadata as metadata, which the flags announce if and only if there
/// is some; more answers follow.
pub proof fn item_is_answered<R, S>(sid: u32, item: Payload, r: (Frame, bool))
    requires
        call_ensures(DuplexSocket::<R, S>::on_request_stream, (sid, Some(Ok(item))), r),
    ensures
        r.0.stream_id == sid,
        r.0.flag == (if item.metadata is Some {
            Frame::FLAG_NEXT | Frame::FLAG_METADATA
        } else {
            Frame::FLAG_NEXT
        }),
        r.0.flag & Frame::FLAG_METADATA != 0 <==> item.metadata is Some,
        r.0.body matches Body::Payload(v) && v.data == item.data && v.metadata == item.metadata,
        r.1,
{
    lemma_sent_bits();
}

/// The end of a stream is answered on that stream by a frame that ends it, without data and
/// without metadata, and none announced; no more answers follow.
pub proof fn end_is_answered<R, S>(sid: u32, r: (Frame, bool))
    requires
        call_ensures(DuplexSocket::<R, S>::on_request_stream, (sid, None), r),
    ensures
        r.0.stream_id == sid,
        r.0.flag == Frame::FLAG_COMPLETE,
        r.0.flag & Frame::FLAG_METADATA == 0,
        r.0.body matches Body::Payload(v) && v.data is None && v.metadata is None,
        !r.1,
{
    lemma_sent_bits();
}

/// A push of metadata takes the next id and sends the metadata on it, which the flags announce if
/// and only if there is some. No answer is awaited.
pub proof fn metadata_push_sends<R, S>(
    socket: &mut DuplexSocket<R, S>,
    req: Payload,
    r: Frame,
)
    requires
        call_ensures(DuplexSocket::<R, S>::metadata_push, (socket, req), r),
    ensures
        r.stream_id == old(socket)@.next_stream_id,
        r.flag == (if req.metadata is Some {
            Frame::FLAG_METADATA
        } else {
            0
        }),
        r.flag & Frame::FLAG_METADATA != 0 <==> req.metadata is Some,
        r.body matches Body::MetadataPush(v) && v.metadata == req.metadata,
        old(socket)@.next_stream_id < 0xFFFF_FFFE ==> final(socket)@.next_stream_id == old(
            socket,
        )@.next_stream_id + 2,
        old(socket)@.next_stream_id >= 0xFFFF_FFFE ==> final(socket)@.next_stream_id == old(
            socket,
        )@.next_stream_id - 0xFFFF_FFFE,
        final(socket)@.handlers == old(socket)@.handlers,
{
    lemma_sent_bits();
}

/// A request without an answer takes the next id and sends its data as data and its metadata as
/// metadata on it, which the flags announce if and only if there is some. No answer is awaited.
pub proof fn fire_and_forget_sends<R, S>(
    socket: &mut DuplexSocket<R, S>,
    req: Payload,
    r: Frame,
)
    requires
        call_ensures(DuplexSocket::<R, S>::fire_and_forget, (socket, req), r),
    ensures
        r.stream_id == old(socket)@.next_stream_id,
        r.flag == (if req.metadata is Some {
            Frame::FLAG_METADATA
        } else {
            0
        }),
        r.flag & Frame::FLAG_METADATA != 0 <==> req.metadata is Some,
        r.body matches Body::RequestFNF(v) && v.data == req.data && v.metadata == req.metadata,
        old(socket)@.next_stream_id < 0xFFFF_FFFE ==> final(socket)@.next_stream_id == old(
            socket,
        )@.next_stream_id + 2,
        old(socket)@.next_stream_id >= 0xFFFF_FFFE ==> final(socket)@.next_stream_id == old(
            socket,
        )@.next_stream_id - 0xFFFF_FFFE,
        final(socket)@.handlers == old(socket)@.handlers,
{
    lemma_sent_bits();
}

/// A request for one answer takes the next id and sends its data as data and its metadata as
/// metadata on it, which the flags announce if and only if there is some. Its sender awaits the
/// answer on that id, and no other stream is touched.
pub proof fn request_response_sends_and_awaits<R, S>(
    socket: &mut DuplexSocket<R, S>,
    req: Payload,
    sender: R,
    r: Frame,
    other: u32,
)
    requires
        call_ensures(DuplexSocket::<R, S>::request_response, (socket, req, sender), r),
    ensures
        r.stream_id == old(socket)@.next_stream_id,
        r.flag == (if req.metadata is Some {
            Frame::FLAG_METADATA
        } else {
            0
        }),
        r.flag & Frame::FLAG_METADATA != 0 <==> req.metadata is Some,
        r.body matches Body::RequestResponse(v) && v.data == req.data && v.metadata == req.metadata,
        old(socket)@.next_stream_id < 0xFFFF_FFFE ==> final(socket)@.next_stream_id == old(
            socket,
        )@.next_stream_id + 2,
        old(socket)@.next_stream_id >= 0xFFFF_FFFE ==> final(socket)@.next_stream_id == old(
            socket,
        )@.next_stream_id - 0xFFFF_FFFE,
        final(socket)@.handlers.contains_key(r.stream_id),
        final(socket)@.handlers[r.stream_id] == Handler::<R, S>::Request(sender),
        other != r.stream_id ==> {
            &&& final(socket)@.handlers.contains_key(other) <==> old(
                socket,
            )@.handlers.contains_key(other)
            &&& old(socket)@.handlers.contains_key(other) ==> final(socket)@.handlers[other]
                == old(socket)@.handlers[other]
        },
{
    lemma_sent_bits();
}

/// A request for a stream takes the next id and sends its data as data and its metadata as
/// metadata on it, which the flags announce if and only if there is some, without a limit. Its
/// sender awaits the answers on that id, and no other stream is touched.
pub proof fn request_stream_sends_and_awaits<R, S>(
    socket: &mut DuplexSocket<R, S>,
    req: Payload,
    sender: S,
    r: Frame,
    other: u32,
)
    requires
        call_ensures(DuplexSocket::<R, S>::request_stream, (socket, req, sender), r),
    ensures
        r.stream_id == old(socket)@.next_stream_id,
        r.flag == (if req.metadata is Some {
            Frame::FLAG_METADATA
        } else {
            0
        }),
        r.flag & Frame::FLAG_METADATA != 0 <==> req.metadata is Some,
        r.body matches Body::RequestStream(v) && v.data == req.data && v.metadata == req.metadata
            && v.initial_request_n == REQUEST_MAX,
        old(socket)@.next_stream_id < 0xFFFF_FFFE ==> final(socket)@.next_stream_id == old(
            socket,
        )@.next_stream_id + 2,
        old(socket)@.next_stream_id >= 0xFFFF_FFFE ==> final(socket)@.next_stream_id == old(
            socket,
        )@.next_stream_id - 0xFFFF_FFFE,
        final(socket)@.handlers.contains_key(r.stream_id),
        final(socket)@.handlers[r.stream_id] == Handler::<R, S>::Stream(sender),
        other != r.stream_id ==> {
            &&& final(socket)@.handlers.contains_key(other) <==> old(
                socket,
            )@.handlers.contains_key(other)
            &&& old(socket)@.handlers.contains_key(other) ==> final(socket)@.handlers[other]
                == old(socket)@.handlers[other]
        },
{
    lemma_sent_bits();
}

/// A push or a request without an answer succeeds if and only if its frame could be sent; the
/// error says which of the two it was.
pub proof fn sending_decides<R, S>(sent: bool, push: RSocketResult<()>, request: RSocketResult<()>)
    requires
        call_ensures(DuplexSocket::<R, S>::metadata_push_result, (sent,), push),
        call_ensures(DuplexSocket::<R, S>::fire_and_forget_result, (sent,), request),
    ensures
        push is Ok <==> sent,
        request is Ok <==> sent,
        push matches Err(e) ==> e.kind == ErrorKind::WithDescription("send metadata_push failed"),
        request matches Err(e) ==> e.kind == ErrorKind::WithDescription(
            "send fire_and_forget failed",
        ),
{
}

/// A request for one answer comes out as its answer does; without an answer it fails.
pub proof fn answer_decides<R, S>(answer: Option<RSocketResult<Payload>>, r: RSocketResult<Payload>)
    requires
        call_ensures(DuplexSocket::<R, S>::request_response_result, (answer,), r),
    ensures
        answer matches Some(Ok(p)) ==> (r matches Ok(got) && got.data == p.data && got.metadata
            == p.metadata),
        answer matches Some(Err(e)) ==> (r matches Err(got) && got.kind == e.kind),
        answer is None ==> (r matches Err(got) && got.kind == ErrorKind::WithDescription(
            "request_response failed",
        )),
{
}

} // verus!
