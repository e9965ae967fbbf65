//! What one end of a connection does with each request of its user and each frame of its peer.

use super::StreamID;
use crate::buf::bytes_from_str;
use crate::errors::{ErrorKind, RSocketError, RSocketResult};
use crate::frame::{
    self, Body, Frame, Keepalive, MetadataPush, RequestFNF, RequestResponse, RequestStream, Setup,
    ERR_APPLICATION, REQUEST_MAX,
};
use crate::payload::{Payload, SetupPayload};
use bytes::Bytes;
use std::collections::HashMap;
use vstd::prelude::*;

verus! {

use super::misc::nth_stream_id;
use crate::buf::bytes_contents;
use crate::frame::has_flag;

broadcast use vstd::std_specs::hash::group_hash_axioms;

/// Where the answers to a request go: an `R` takes the only answer, an `S` takes a stream.
#[derive(Debug)]
pub enum Handler<R, S> {
    Request(R),
    Stream(S),
}

/// The requests that answers are still awaited for, by stream.
#[derive(Debug)]
pub struct Handlers<R, S> {
    map: HashMap<u32, Handler<R, S>>,
}

/// One end of a connection.
#[derive(Debug)]
pub struct DuplexSocket<R, S> {
    seq: StreamID,
    handlers: Handlers<R, S>,
}

/// What a [`DuplexSocket`] stands for.
#[verifier::ext_equal]
pub struct SocketState<R, S> {
    pub next_stream_id: u32,
    pub handlers: Map<u32, Handler<R, S>>,
}

impl<R, S> View for Handlers<R, S> {
    type V = Map<u32, Handler<R, S>>;

    closed spec fn view(&self) -> Map<u32, Handler<R, S>> {
        self.map@
    }
}

impl<R, S> View for DuplexSocket<R, S> {
    type V = SocketState<R, S>;

    closed spec fn view(&self) -> SocketState<R, S> {
        SocketState { next_stream_id: self.seq.next, handlers: self.handlers@ }
    }
}

/// What is to be done with an answer.
#[derive(Debug)]
pub enum Delivery<R, S> {
    /// Hand the only answer over.
    Reply(R, Payload),
    /// Hand an item of a stream over.
    Next(S, Payload),
    /// Hand nothing over.
    Nothing,
}

/// The ways in which an application answers the peers that connect to it.
#[derive(Debug, Clone, Copy)]
pub enum AcceptorKind {
    /// A function makes a responder out of what the peer sent.
    Generate,
    /// No request is answered.
    Empty,
    /// A responder that is there already.
    Direct,
}

/// What is to be done when the peer opens the connection.
#[derive(Debug)]
pub enum SetupAction {
    /// Make a responder out of what the peer sent.
    Generate(SetupPayload),
    /// Answer no request.
    Empty,
    /// Keep the responder as it is.
    Keep,
}

/// What is to be done with a frame of the peer.
#[derive(Debug)]
pub enum Action<R, S> {
    /// Nothing.
    Ignore,
    /// See to the responder.
    Setup(SetupAction),
    /// Hand metadata to the responder.
    MetadataPush(Payload),
    /// Hand a request to the responder.
    FireAndForget { stream_id: u32, payload: Payload },
    /// Hand a request to the responder and send its answer.
    RequestResponse { stream_id: u32, payload: Payload },
    /// Hand a request to the responder and send its answers.
    RequestStream { stream_id: u32, payload: Payload },
    /// Hand an answer to the user.
    Deliver(Delivery<R, S>),
    /// Send a frame.
    Send(Frame),
}

/// `flag`, where the metadata bit is set if there is metadata.
pub open spec fn announcing(flag: u16, metadata: Option<Bytes>) -> u16 {
    if metadata is Some {
        flag | Frame::FLAG_METADATA
    } else {
        flag
    }
}

/// The frame that opens a connection.
pub open spec fn setup_frame(setup: SetupPayload) -> Frame {
    Frame {
        stream_id: 0,
        body: Body::Setup(
            Setup {
                keepalive: setup.keepalive_interval,
                lifetime: setup.keepalive_lifetime,
                mime_metadata: setup.metadata_mime_type,
                mime_data: setup.data_mime_type,
                metadata: setup.metadata,
                data: setup.data,
            },
        ),
        flag: announcing(0, setup.metadata),
    }
}

/// The frame that carries an answer.
pub open spec fn payload_frame(stream_id: u32, flag: u16, payload: Payload) -> Frame {
    Frame {
        stream_id,
        body: Body::Payload(
            frame::Payload { metadata: payload.metadata, data: payload.data },
        ),
        flag: announcing(flag, payload.metadata),
    }
}

/// The frame that carries metadata of the connection.
pub open spec fn metadata_push_frame(stream_id: u32, req: Payload) -> Frame {
    Frame {
        stream_id,
        body: Body::MetadataPush(MetadataPush { metadata: req.metadata }),
        flag: announcing(0, req.metadata),
    }
}

/// The frame that carries a request without an answer.
pub open spec fn fire_and_forget_frame(stream_id: u32, req: Payload) -> Frame {
    Frame {
        stream_id,
        body: Body::RequestFNF(RequestFNF { metadata: req.metadata, data: req.data }),
        flag: announcing(0, req.metadata),
    }
}

/// The frame that carries a request for one answer.
pub open spec fn request_response_frame(stream_id: u32, req: Payload) -> Frame {
    Frame {
        stream_id,
        body: Body::RequestResponse(RequestResponse { metadata: req.metadata, data: req.data }),
        flag: announcing(0, req.metadata),
    }
}

/// The frame that carries a request for a stream of answers.
pub open spec fn request_stream_frame(stream_id: u32, req: Payload) -> Frame {
    Frame {
        stream_id,
        body: Body::RequestStream(
            RequestStream {
                initial_request_n: REQUEST_MAX,
                metadata: req.metadata,
                data: req.data,
            },
        ),
        flag: announcing(0, req.metadata),
    }
}

/// The answer to a keepalive frame, which brings its data back.
pub open spec fn keepalive_frame(keepalive: Keepalive) -> Frame {
    Frame {
        stream_id: 0,
        body: Body::Keepalive(Keepalive { last_received_position: 0, data: keepalive.data }),
        flag: 0,
    }
}

/// `sending` answers the request of the stream `stream_id`, which came out as `outcome`.
pub open spec fn answers(
    stream_id: u32,
    outcome: RSocketResult<Payload>,
    sending: Frame,
) -> bool {
    match outcome {
        Ok(payload) => sending == payload_frame(stream_id, Frame::FLAG_COMPLETE, payload),
        Err(_) => {
            &&& sending.stream_id == stream_id
            &&& sending.flag == 0
            &&& sending.body matches Body::Error(error)
            &&& error.code == ERR_APPLICATION
            &&& error.data matches Some(details)
            &&& bytes_contents(details) == vstd::utf8::encode_utf8(
                "TODO: should be error details"@,
            )
        },
    }
}

/// The frame for the next thing that a responder's stream gives: an item, or its end.
pub open spec fn stream_frame(stream_id: u32, next: Option<Payload>) -> Frame {
    match next {
        Some(payload) => payload_frame(stream_id, Frame::FLAG_NEXT, payload),
        None => payload_frame(
            stream_id,
            Frame::FLAG_COMPLETE,
            Payload { metadata: None, data: None },
        ),
    }
}

/// What is done with the responder when the peer opens the connection.
pub open spec fn setup_action(acceptor: AcceptorKind, setup: SetupPayload) -> SetupAction {
    match acceptor {
        AcceptorKind::Generate => SetupAction::Generate(setup),
        AcceptorKind::Empty => SetupAction::Empty,
        AcceptorKind::Direct => SetupAction::Keep,
    }
}

impl<R, S> SocketState<R, S> {
    /// With a stream id handed out.
    pub open spec fn allocate(self) -> SocketState<R, S> {
        SocketState { next_stream_id: nth_stream_id(self.next_stream_id, 1), ..self }
    }

    /// With answers on the stream `sid` going to `handler`.
    pub open spec fn register(self, sid: u32, handler: Handler<R, S>) -> SocketState<R, S> {
        SocketState { handlers: self.handlers.insert(sid, handler), ..self }
    }

    /// With a stream id handed out, and the answers on that stream going to `handler`.
    pub open spec fn request(self, handler: Handler<R, S>) -> SocketState<R, S> {
        self.allocate().register(self.next_stream_id, handler)
    }

    /// With no more answers awaited on the stream `sid`.
    pub open spec fn forget(self, sid: u32) -> SocketState<R, S> {
        SocketState { handlers: self.handlers.remove(sid), ..self }
    }

    /// After an answer with the flags `flag` on the stream `sid`: no second answer is awaited
    /// where one was asked for, nor after the end of a stream.
    pub open spec fn answered(self, sid: u32, flag: u16) -> SocketState<R, S>
        recommends
            self.handlers.contains_key(sid),
    {
        match self.handlers[sid] {
            Handler::Request(_) => self.forget(sid),
            Handler::Stream(_) => if has_flag(flag, Frame::FLAG_COMPLETE) {
                self.forget(sid)
            } else {
                self
            },
        }
    }

    /// The frame can be handled: an answer comes on a stream that one is awaited on.
    pub open spec fn accepts(self, msg: Frame) -> bool {
        msg.body is Payload ==> self.handlers.contains_key(msg.stream_id)
    }
}

impl<R, S: Clone> SocketState<R, S> {
    /// `delivery` hands the answer `input` with the flags `flag` on the stream `sid` to whoever
    /// awaits it. The sender of a stream is handed over as a clone.
    pub open spec fn delivers(
        self,
        sid: u32,
        flag: u16,
        input: Payload,
        delivery: Delivery<R, S>,
    ) -> bool
        recommends
            self.handlers.contains_key(sid),
    {
        match self.handlers[sid] {
            Handler::Request(sender) => delivery == Delivery::<R, S>::Reply(sender, input),
            Handler::Stream(sender) => if has_flag(flag, Frame::FLAG_NEXT) {
                &&& delivery matches Delivery::Next(copy, payload)
                &&& cloned(sender, copy)
                &&& payload == input
            } else {
                delivery == Delivery::<R, S>::Nothing
            },
        }
    }

    /// `action` and `next` are what is done with the frame `msg` and the state after it.
    pub open spec fn handles(
        self,
        acceptor: AcceptorKind,
        msg: Frame,
        action: Action<R, S>,
        next: SocketState<R, S>,
    ) -> bool {
        let stream_id = msg.stream_id;
        match msg.body {
            Body::Payload(v) => {
                &&& next == self.answered(stream_id, msg.flag)
                &&& action matches Action::Deliver(delivery)
                &&& self.delivers(
                    stream_id,
                    msg.flag,
                    Payload { metadata: v.metadata, data: v.data },
                    delivery,
                )
            },
            Body::Setup(v) => {
                &&& next == self
                &&& action == Action::<R, S>::Setup(
                    setup_action(
                        acceptor,
                        SetupPayload {
                            metadata: v.metadata,
                            data: v.data,
                            data_mime_type: v.mime_data,
                            metadata_mime_type: v.mime_metadata,
                            keepalive_interval: v.keepalive,
                            keepalive_lifetime: v.lifetime,
                        },
                    ),
                )
            },
            Body::MetadataPush(v) => {
                &&& next == self
                &&& action == Action::<R, S>::MetadataPush(
                    Payload { metadata: v.metadata, data: None },
                )
            },
            Body::RequestFNF(v) => {
                &&& next == self
                &&& action == (Action::<R, S>::FireAndForget {
                    stream_id,
                    payload: Payload { metadata: v.metadata, data: v.data },
                })
            },
            Body::RequestResponse(v) => {
                &&& next == self
                &&& action == (Action::<R, S>::RequestResponse {
                    stream_id,
                    payload: Payload { metadata: v.metadata, data: v.data },
                })
            },
            Body::RequestStream(v) => {
                &&& next == self
                &&& action == (Action::<R, S>::RequestStream {
                    stream_id,
                    payload: Payload { metadata: v.metadata, data: v.data },
                })
            },
            Body::Keepalive(v) => {
                &&& next == self
                &&& action == if has_flag(msg.flag, Frame::FLAG_RESPOND) {
                    Action::<R, S>::Send(keepalive_frame(v))
                } else {
                    Action::<R, S>::Ignore
                }
            },
            _ => next == self && action == Action::<R, S>::Ignore,
        }
    }
}

/// `flag`, with the metadata bit set if there is metadata.
fn announce(flag: u16, metadata: &Option<Bytes>) -> (r: u16)
    ensures
        r == announcing(flag, *metadata),
{
    match metadata {
        Some(_) => flag | Frame::FLAG_METADATA,
        None => flag,
    }
}

/// The frame that carries an answer.
fn new_payload_frame(stream_id: u32, flag: u16, payload: Payload) -> (r: Frame)
    ensures
        r == payload_frame(stream_id, flag, payload),
{
    let (data, metadata) = payload.split();
    let flag: u16 = announce(flag, &metadata);
    Frame::new(stream_id, Body::Payload(frame::Payload { metadata, data }), flag)
}

impl<R, S> Handlers<R, S> {
    /// No answers are awaited.
    pub fn new() -> (r: Handlers<R, S>)
        ensures
            r@ == Map::<u32, Handler<R, S>>::empty(),
    {
        Handlers { map: HashMap::new() }
    }
}

impl<R, S> DuplexSocket<R, S> {
    /// An end whose first request has the stream id `first_stream_id`.
    pub fn new(first_stream_id: u32) -> (r: DuplexSocket<R, S>)
        ensures
            r@ == (SocketState::<R, S> {
                next_stream_id: first_stream_id,
                handlers: Map::empty(),
            }),
    {
        DuplexSocket { seq: StreamID::from(first_stream_id), handlers: Handlers::new() }
    }

    /// The frame that opens the connection.
    pub fn setup(&self, setup: SetupPayload) -> (r: Frame)
        ensures
            r == setup_frame(setup),
    {
        let flag: u16 = announce(0, &setup.metadata);
        let body = Setup {
            keepalive: setup.keepalive_interval,
            lifetime: setup.keepalive_lifetime,
            mime_metadata: setup.metadata_mime_type,
            mime_data: setup.data_mime_type,
            metadata: setup.metadata,
            data: setup.data,
        };
        Frame::new(0, Body::Setup(body), flag)
    }

    /// Lets the answers on the stream `sid` go to `handler`.
    fn register_handler(&mut self, sid: u32, handler: Handler<R, S>)
        ensures
            final(self)@ == old(self)@.register(sid, handler),
    {
        self.handlers.map.insert(sid, handler);
    }

    /// Whether answers are awaited on the stream `sid`.
    pub fn has_handler(&self, sid: u32) -> (r: bool)
        ensures
            r == self@.handlers.contains_key(sid),
    {
        self.handlers.map.contains_key(&sid)
    }

    /// Decides what to do with a frame of the peer. An answer must be awaited on its stream.
    pub fn on_frame(&mut self, acceptor: AcceptorKind, msg: Frame) -> (r: Action<R, S>) where
        S: Clone,
        requires
            old(self)@.accepts(msg),
        ensures
            old(self)@.handles(acceptor, msg, r, final(self)@),
    {
        let sid: u32 = msg.get_stream_id();
        let flag: u16 = msg.get_flag();
        match msg.get_body() {
            Body::Setup(v) => Action::Setup(Self::on_setup(acceptor, SetupPayload::from(v))),
            Body::Resume(_) => Action::Ignore,
            Body::ResumeOK(_) => Action::Ignore,
            Body::MetadataPush(v) => Action::MetadataPush(Payload::from(v)),
            Body::RequestFNF(v) => {
                Action::FireAndForget { stream_id: sid, payload: Payload::from(v) }
            },
            Body::RequestResponse(v) => {
                Action::RequestResponse { stream_id: sid, payload: Payload::from(v) }
            },
            Body::RequestStream(v) => {
                Action::RequestStream { stream_id: sid, payload: Payload::from(v) }
            },
            Body::RequestChannel(_) => Action::Ignore,
            Body::Payload(v) => Action::Deliver(self.on_payload(sid, flag, Payload::from(v))),
            Body::Keepalive(v) => {
                if flag & Frame::FLAG_RESPOND != 0 {
                    Action::Send(Self::on_keepalive(v))
                } else {
                    Action::Ignore
                }
            },
            Body::RequestN(_) => Action::Ignore,
            Body::Error(_) => Action::Ignore,
            Body::Cancel() => Action::Ignore,
            Body::Lease(_) => Action::Ignore,
        }
    }

    /// Finds out who awaits the answer `input` with the flags `flag` on the stream `sid`, and
    /// whether more are awaited there.
    pub fn on_payload(&mut self, sid: u32, flag: u16, input: Payload) -> (r: Delivery<R, S>) where
        S: Clone,
        requires
            old(self)@.handlers.contains_key(sid),
        ensures
            old(self)@.delivers(sid, flag, input, r),
            final(self)@ == old(self)@.answered(sid, flag),
    {
        match self.handlers.map.remove(&sid).unwrap() {
            Handler::Request(sender) => Delivery::Reply(sender, input),
            Handler::Stream(sender) => {
                let delivery = if flag & Frame::FLAG_NEXT != 0 {
                    Delivery::Next(sender.clone(), input)
                } else {
                    Delivery::Nothing
                };
                if flag & Frame::FLAG_COMPLETE == 0 {
                    self.handlers.map.insert(sid, Handler::Stream(sender));
                }
                delivery
            },
        }
    }

    /// Decides what to do with the responder when the peer opens the connection.
    pub fn on_setup(acceptor: AcceptorKind, setup: SetupPayload) -> (r: SetupAction)
        ensures
            r == setup_action(acceptor, setup),
    {
        match acceptor {
            AcceptorKind::Generate => SetupAction::Generate(setup),
            AcceptorKind::Empty => SetupAction::Empty,
            AcceptorKind::Direct => SetupAction::Keep,
        }
    }

    /// The answer to a request for one answer, by how it came out.
    pub fn on_request_response(sid: u32, outcome: RSocketResult<Payload>) -> (r: Frame)
        ensures
            answers(sid, outcome, r),
    {
        match outcome {
            Ok(it) => new_payload_frame(sid, Frame::FLAG_COMPLETE, it),
            Err(_) => {
                let details = bytes_from_str("TODO: should be error details");
                Frame::new(
                    sid,
                    Body::Error(frame::Error { code: ERR_APPLICATION, data: Some(details) }),
                    0,
                )
            },
        }
    }

    /// The next answer to a request for a stream, by what the responder's stream gives next, and
    /// whether more answers follow it. The responder's stream must not give an error.
    pub fn on_request_stream(sid: u32, next: Option<RSocketResult<Payload>>) -> (r: (Frame, bool))
        requires
            next matches Some(it) ==> it is Ok,
        ensures
            r.0 == stream_frame(
                sid,
                match next {
                    Some(it) => Some(it->Ok_0),
                    None => None,
                },
            ),
            r.1 == (next is Some),
    {
        match next {
            Some(it) => (new_payload_frame(sid, Frame::FLAG_NEXT, it.unwrap()), true),
            None => {
                let end = Payload { metadata: None, data: None };
                (new_payload_frame(sid, Frame::FLAG_COMPLETE, end), false)
            },
        }
    }

    /// The answer to a keepalive frame.
    pub fn on_keepalive(keepalive: Keepalive) -> (r: Frame)
        ensures
            r == keepalive_frame(keepalive),
    {
        Frame::new(
            0,
            Body::Keepalive(Keepalive { last_received_position: 0, data: keepalive.data }),
            0,
        )
    }

    /// The frame that pushes the metadata of `req` to the peer.
    pub fn metadata_push(&mut self, req: Payload) -> (r: Frame)
        ensures
            r == metadata_push_frame(old(self)@.next_stream_id, req),
            final(self)@ == old(self)@.allocate(),
    {
        let sid: u32 = self.seq.next();
        let (_data, metadata) = req.split();
        let flag: u16 = announce(0, &metadata);
        Frame::new(sid, Body::MetadataPush(MetadataPush { metadata }), flag)
    }

    /// The frame that sends `req` to the peer without an answer.
    pub fn fire_and_forget(&mut self, req: Payload) -> (r: Frame)
        ensures
            r == fire_and_forget_frame(old(self)@.next_stream_id, req),
            final(self)@ == old(self)@.allocate(),
    {
        let sid: u32 = self.seq.next();
        let (data, metadata) = req.split();
        let flag: u16 = announce(0, &metadata);
        Frame::new(sid, Body::RequestFNF(RequestFNF { metadata, data }), flag)
    }

    /// The frame that sends `req` to the peer, whose answer goes to `sender`.
    pub fn request_response(&mut self, req: Payload, sender: R) -> (r: Frame)
        ensures
            r == request_response_frame(old(self)@.next_stream_id, req),
            final(self)@ == old(self)@.request(Handler::Request(sender)),
    {
        let sid: u32 = self.seq.next();
        self.register_handler(sid, Handler::Request(sender));
        let (data, metadata) = req.split();
        let flag: u16 = announce(0, &metadata);
        Frame::new(sid, Body::RequestResponse(RequestResponse { metadata, data }), flag)
    }

    /// The frame that sends `input` to the peer, whose answers go to `sender`.
    pub fn request_stream(&mut self, input: Payload, sender: S) -> (r: Frame)
        ensures
            r == request_stream_frame(old(self)@.next_stream_id, input),
            final(self)@ == old(self)@.request(Handler::Stream(sender)),
    {
        let sid: u32 = self.seq.next();
        self.register_handler(sid, Handler::Stream(sender));
        let (data, metadata) = input.split();
        let flag: u16 = announce(0, &metadata);
        let body = RequestStream { initial_request_n: REQUEST_MAX, metadata, data };
        Frame::new(sid, Body::RequestStream(body), flag)
    }

    /// How a push of metadata came out, by whether its frame could be sent.
    pub fn metadata_push_result(sent: bool) -> (r: RSocketResult<()>)
        ensures
            r == if sent {
                Ok::<(), RSocketError>(())
            } else {
                Err(
                    RSocketError {
                        kind: ErrorKind::WithDescription("send metadata_push failed"),
                    },
                )
            },
    {
        if sent {
            Ok(())
        } else {
            Err(RSocketError::from(ErrorKind::WithDescription("send metadata_push failed")))
        }
    }

    /// How a request without an answer came out, by whether its frame could be sent.
    pub fn fire_and_forget_result(sent: bool) -> (r: RSocketResult<()>)
        ensures
            r == if sent {
                Ok::<(), RSocketError>(())
            } else {
                Err(
                    RSocketError {
                        kind: ErrorKind::WithDescription("send fire_and_forget failed"),
                    },
                )
            },
    {
        if sent {
            Ok(())
        } else {
            Err(RSocketError::from(ErrorKind::WithDescription("send fire_and_forget failed")))
        }
    }

    /// How a request for one answer came out, by the answer, if one came.
    pub fn request_response_result(answer: Option<RSocketResult<Payload>>) -> (r: RSocketResult<
        Payload,
    >)
        ensures
            r == match answer {
                Some(v) => v,
                None => Err(
                    RSocketError { kind: ErrorKind::WithDescription("request_response failed") },
                ),
            },
    {
        match answer {
            Some(v) => v,
            None => Err(RSocketError::from(ErrorKind::WithDescription("request_response failed"))),
        }
    }
}

} // verus!
