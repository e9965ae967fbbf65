//! What holds of a connection as a whole: of what one end sends and the other end makes of it,
//! and of many requests and frames at one end.

use super::{AcceptorKind, Action, Delivery, Handler, SocketState};
use crate::errors::RSocketResult;
use crate::frame::{Body, Frame, ERR_APPLICATION};
use crate::payload::{Payload, SetupPayload};
use vstd::prelude::*;

verus! {

use super::misc::{nth_stream_id, stream_ids_are_distinct, stream_ids_count_on};
use super::socket::{
    answers, fire_and_forget_frame, metadata_push_frame, request_response_frame,
    request_stream_frame, setup_action, setup_frame, stream_frame,
};
use crate::frame::has_flag;

/// Setting the metadata bit leaves the bits that end a stream or carry an item as they are.
proof fn lemma_announcing_keeps_stream_bits(flag: u16)
    ensures
        has_flag(flag | Frame::FLAG_METADATA, Frame::FLAG_NEXT) == has_flag(
            flag,
            Frame::FLAG_NEXT,
        ),
        has_flag(flag | Frame::FLAG_METADATA, Frame::FLAG_COMPLETE) == has_flag(
            flag,
            Frame::FLAG_COMPLETE,
        ),
{
    assert((flag | 0x0100u16) & 0x0020u16 == flag & 0x0020u16) by (bit_vector);
    assert((flag | 0x0100u16) & 0x0040u16 == flag & 0x0040u16) by (bit_vector);
}

/// The flags of the frames for an item and for the end of a stream.
proof fn lemma_stream_bits()
    ensures
        has_flag(Frame::FLAG_NEXT, Frame::FLAG_NEXT),
        !has_flag(Frame::FLAG_NEXT, Frame::FLAG_COMPLETE),
        has_flag(Frame::FLAG_COMPLETE, Frame::FLAG_COMPLETE),
        !has_flag(Frame::FLAG_COMPLETE, Frame::FLAG_NEXT),
{
    assert(0x0020u16 & 0x0020u16 == 0x0020u16) by (bit_vector);
    assert(0x0020u16 & 0x0040u16 == 0) by (bit_vector);
    assert(0x0040u16 & 0x0040u16 == 0x0040u16) by (bit_vector);
    assert(0x0040u16 & 0x0020u16 == 0) by (bit_vector);
}

/// What one end hands over when it opens the connection is what the other end's acceptor gets.
pub proof fn setup_reaches_acceptor<R, S: Clone>(
    state: SocketState<R, S>,
    acceptor: AcceptorKind,
    setup: SetupPayload,
    action: Action<R, S>,
    next: SocketState<R, S>,
)
    requires
        state.handles(acceptor, setup_frame(setup), action, next),
    ensures
        action == Action::<R, S>::Setup(setup_action(acceptor, setup)),
        next == state,
{
}

/// What one end requests is what the other end hands to its responder, on the stream of the
/// request. Of a push of metadata, only the metadata gets there.
pub proof fn request_reaches_responder<R, S: Clone>(
    state: SocketState<R, S>,
    acceptor: AcceptorKind,
    stream_id: u32,
    req: Payload,
    msg: Frame,
    action: Action<R, S>,
    next: SocketState<R, S>,
)
    requires
        state.handles(acceptor, msg, action, next),
    ensures
        msg == metadata_push_frame(stream_id, req) ==> action == Action::<R, S>::MetadataPush(
            Payload { metadata: req.metadata, data: None },
        ) && next == state,
        msg == fire_and_forget_frame(stream_id, req) ==> action == (Action::<
            R,
            S,
        >::FireAndForget { stream_id, payload: req }) && next == state,
        msg == request_response_frame(stream_id, req) ==> action == (Action::<
            R,
            S,
        >::RequestResponse { stream_id, payload: req }) && next == state,
        msg == request_stream_frame(stream_id, req) ==> action == (Action::<
            R,
            S,
        >::RequestStream { stream_id, payload: req }) && next == state,
{
}

/// A request whose responder failed is answered with an application error on its stream. The
/// requester ignores that answer.
pub proof fn failure_is_answered_and_ignored<R, S: Clone>(
    state: SocketState<R, S>,
    acceptor: AcceptorKind,
    stream_id: u32,
    outcome: RSocketResult<Payload>,
    msg: Frame,
    action: Action<R, S>,
    next: SocketState<R, S>,
)
    requires
        outcome is Err,
        answers(stream_id, outcome, msg),
        state.handles(acceptor, msg, action, next),
    ensures
        msg.stream_id == stream_id,
        msg.body matches Body::Error(error) && error.code == ERR_APPLICATION,
        action == Action::<R, S>::Ignore,
        next == state,
{
}

/// Something that happens at one end of a connection.
pub enum Event<R, S> {
    /// The frame comes in, and the action is done with it.
    Received(AcceptorKind, Frame, Action<R, S>),
    /// A request is made whose answers go to the handler.
    Requested(Handler<R, S>),
    /// A request is made that has no answer.
    Pushed,
}

impl<R, S: Clone> Event<R, S> {
    /// `before` and `after` are the states around this event.
    pub open spec fn leads(self, before: SocketState<R, S>, after: SocketState<R, S>) -> bool {
        match self {
            Event::Received(acceptor, msg, action) => {
                &&& before.accepts(msg)
                &&& before.handles(acceptor, msg, action, after)
            },
            Event::Requested(handler) => after == before.request(handler),
            Event::Pushed => after == before.allocate(),
        }
    }

    /// The answer that comes in on the stream `sid`.
    pub open spec fn answer_on(self, sid: u32) -> Option<Frame> {
        match self {
            Event::Received(_, msg, _) => if msg.body is Payload && msg.stream_id == sid {
                Some(msg)
            } else {
                None
            },
            _ => None,
        }
    }

    /// What is handed over of an answer on the stream `sid`.
    pub open spec fn handed_over_on(self, sid: u32) -> Option<Payload> {
        if self.answer_on(sid) is None {
            None
        } else {
            match self {
                Event::Received(_, _, Action::Deliver(Delivery::Reply(_, payload))) => Some(payload),
                Event::Received(_, _, Action::Deliver(Delivery::Next(_, payload))) => Some(payload),
                _ => None,
            }
        }
    }

    /// What is handed over of an answer on the stream `sid`, if anything, goes to the sender of
    /// `handler` or, of a stream, to a clone of it.
    pub open spec fn goes_to(self, sid: u32, handler: Handler<R, S>) -> bool {
        self.answer_on(sid) is Some ==> match (self, handler) {
            (
                Event::Received(_, _, Action::Deliver(Delivery::Reply(to, _))),
                Handler::Request(sender),
            ) => to == sender,
            (
                Event::Received(_, _, Action::Deliver(Delivery::Next(to, _))),
                Handler::Stream(sender),
            ) => cloned(sender, to),
            _ => self.handed_over_on(sid) is None,
        }
    }
}

/// The answers that come in on the stream `sid`, in their order.
pub open spec fn answers_on<R, S: Clone>(sid: u32, events: Seq<Event<R, S>>) -> Seq<Frame>
    decreases events.len(),
{
    if events.len() == 0 {
        Seq::empty()
    } else {
        let earlier = answers_on(sid, events.drop_last());
        match events.last().answer_on(sid) {
            Some(msg) => earlier.push(msg),
            None => earlier,
        }
    }
}

/// What is handed over of the answers on the stream `sid`, in its order.
pub open spec fn handed_over_on<R, S: Clone>(sid: u32, events: Seq<Event<R, S>>) -> Seq<Payload>
    decreases events.len(),
{
    if events.len() == 0 {
        Seq::empty()
    } else {
        let earlier = handed_over_on(sid, events.drop_last());
        match events.last().handed_over_on(sid) {
            Some(payload) => earlier.push(payload),
            None => earlier,
        }
    }
}

/// `states` are the states before, between and after `events`.
pub open spec fn run<R, S: Clone>(
    events: Seq<Event<R, S>>,
    states: Seq<SocketState<R, S>>,
) -> bool {
    &&& states.len() == events.len() + 1
    &&& forall|i: int|
        0 <= i < events.len() ==> #[trigger] events[i].leads(states[i], states[i + 1])
}

/// `states` are the states before, between and after `events`, of which no request uses the
/// stream `sid` anew. See `ids_are_not_used_anew`.
pub open spec fn history<R, S: Clone>(
    sid: u32,
    events: Seq<Event<R, S>>,
    states: Seq<SocketState<R, S>>,
) -> bool {
    &&& run(events, states)
    &&& forall|i: int|
        0 <= i < events.len() && events[i] is Requested ==> #[trigger] states[i].next_stream_id
            != sid
}

/// What an answer carries.
pub open spec fn payload_of(msg: Frame) -> Payload
    recommends
        msg.body is Payload,
{
    let v = msg.body->Payload_0;
    Payload { metadata: v.metadata, data: v.data }
}

/// What the answers `frames` carry, in their order.
pub open spec fn payloads_of(frames: Seq<Frame>) -> Seq<Payload> {
    frames.map_values(|msg: Frame| payload_of(msg))
}

/// The items among the answers `frames` to a request for a stream, in their order.
pub open spec fn items_of(frames: Seq<Frame>) -> Seq<Payload>
    decreases frames.len(),
{
    if frames.len() == 0 {
        Seq::empty()
    } else {
        let earlier = items_of(frames.drop_last());
        if has_flag(frames.last().flag, Frame::FLAG_NEXT) {
            earlier.push(payload_of(frames.last()))
        } else {
            earlier
        }
    }
}

/// The stream ends with the last of the answers `frames`.
pub open spec fn ended(frames: Seq<Frame>) -> bool {
    frames.len() > 0 && has_flag(frames.last().flag, Frame::FLAG_COMPLETE)
}

/// No answer but the last of `frames` ends the stream.
pub open spec fn ends_only_last(frames: Seq<Frame>) -> bool {
    forall|i: int|
        0 <= i < frames.len() - 1 ==> !has_flag(
            #[trigger] frames[i].flag,
            Frame::FLAG_COMPLETE,
        )
}

/// The answers to a request for a stream on `sid` whose responder gives `items` and then ends.
pub open spec fn stream_frames(sid: u32, items: Seq<Payload>) -> Seq<Frame> {
    Seq::new(
        items.len() + 1,
        |i: int|
            stream_frame(
                sid,
                if i < items.len() {
                    Some(items[i])
                } else {
                    None
                },
            ),
    )
}

/// An event that is no answer on the stream `sid` leaves what is awaited there as it is.
proof fn lemma_other_events<R, S: Clone>(
    sid: u32,
    event: Event<R, S>,
    before: SocketState<R, S>,
    after: SocketState<R, S>,
)
    requires
        event.leads(before, after),
        event is Requested ==> before.next_stream_id != sid,
        event.answer_on(sid) is None,
    ensures
        after.handlers.contains_key(sid) == before.handlers.contains_key(sid),
        before.handlers.contains_key(sid) ==> after.handlers[sid] == before.handlers[sid],
        event.handed_over_on(sid) is None,
{
}

/// `stream_reaches_requester` for the first `n` events.
proof fn lemma_stream_so_far<R, S: Clone>(
    sid: u32,
    sender: S,
    events: Seq<Event<R, S>>,
    states: Seq<SocketState<R, S>>,
    n: int,
)
    requires
        history(sid, events, states),
        states[0].handlers.contains_pair(sid, Handler::Stream(sender)),
        0 <= n <= events.len(),
    ensures
        ({
            let frames = answers_on(sid, events.take(n));
            &&& handed_over_on(sid, events.take(n)) == items_of(frames)
            &&& ends_only_last(frames)
            &&& if ended(frames) {
                !states[n].handlers.contains_key(sid)
            } else {
                states[n].handlers.contains_pair(sid, Handler::Stream(sender))
            }
        }),
        n > 0 ==> events[n - 1].goes_to(sid, Handler::Stream(sender)),
    decreases n,
{
    if n > 0 {
        let j = n - 1;
        lemma_stream_so_far(sid, sender, events, states, j);
        assert(events.take(n).drop_last() =~= events.take(j));
        let event = events[j];
        assert(event.leads(states[j], states[j + 1]));
        if event.answer_on(sid) is None {
            lemma_other_events(sid, event, states[j], states[n]);
        } else {
            let earlier = answers_on(sid, events.take(j));
            let frames = answers_on(sid, events.take(n));
            assert(frames.drop_last() =~= earlier);
            assert(!ended(earlier));
            assert forall|i: int| 0 <= i < frames.len() - 1 implies !has_flag(
                #[trigger] frames[i].flag,
                Frame::FLAG_COMPLETE,
            ) by {
                assert(frames[i] == earlier[i]);
            }
        }
    }
}

/// Whatever else happens at the requester, and whatever flags the answers on a stream have: the
/// items among them are what is handed over there, each once and in their order, and to whom the
/// request named. More is awaited on the stream until an answer ends it, and no answer comes in
/// after that one. An item may come in the answer that ends the stream.
pub proof fn stream_reaches_requester<R, S: Clone>(
    sid: u32,
    sender: S,
    events: Seq<Event<R, S>>,
    states: Seq<SocketState<R, S>>,
)
    requires
        history(sid, events, states),
        states[0].handlers.contains_pair(sid, Handler::Stream(sender)),
    ensures
        handed_over_on(sid, events) == items_of(answers_on(sid, events)),
        forall|i: int|
            0 <= i < events.len() ==> (#[trigger] events[i]).goes_to(sid, Handler::Stream(sender)),
        ends_only_last(answers_on(sid, events)),
        ended(answers_on(sid, events)) ==> !states.last().handlers.contains_key(sid),
        !ended(answers_on(sid, events)) ==> states.last().handlers.contains_pair(
            sid,
            Handler::Stream(sender),
        ),
{
    let n = events.len() as int;
    lemma_stream_so_far(sid, sender, events, states, n);
    assert(events.take(n) =~= events);
    assert forall|i: int| 0 <= i < n implies (#[trigger] events[i]).goes_to(
        sid,
        Handler::Stream(sender),
    ) by {
        lemma_stream_so_far(sid, sender, events, states, i + 1);
    }
}

/// The items among the first `n` answers of a responder are the first `n` items that it gave.
proof fn lemma_items_of_stream_frames(sid: u32, items: Seq<Payload>, n: int)
    requires
        0 <= n <= items.len(),
    ensures
        items_of(stream_frames(sid, items).take(n)) == items.take(n),
    decreases n,
{
    let frames = stream_frames(sid, items).take(n);
    if n > 0 {
        lemma_items_of_stream_frames(sid, items, n - 1);
        assert(frames.drop_last() =~= stream_frames(sid, items).take(n - 1));
        lemma_stream_bits();
        lemma_announcing_keeps_stream_bits(Frame::FLAG_NEXT);
        assert(items.take(n - 1).push(items[n - 1]) =~= items.take(n));
    } else {
        assert(items.take(0) =~= Seq::empty());
    }
}

/// Whatever else happens at the requester, the items that a responder gives are the items that
/// are handed over there, each once and in their order, and no more is awaited after their end.
pub proof fn responder_stream_reaches_requester<R, S: Clone>(
    sid: u32,
    sender: S,
    items: Seq<Payload>,
    events: Seq<Event<R, S>>,
    states: Seq<SocketState<R, S>>,
)
    requires
        history(sid, events, states),
        states[0].handlers.contains_pair(sid, Handler::Stream(sender)),
        answers_on(sid, events) == stream_frames(sid, items),
    ensures
        handed_over_on(sid, events) == items,
        !states.last().handlers.contains_key(sid),
{
    let n = items.len() as int;
    let frames = stream_frames(sid, items);
    stream_reaches_requester(sid, sender, events, states);
    lemma_items_of_stream_frames(sid, items, n);
    lemma_stream_bits();
    assert(frames.drop_last() =~= frames.take(n));
    assert(items.take(n) =~= items);
}

/// `answer_reaches_requester` for the first `n` events.
proof fn lemma_request_so_far<R, S: Clone>(
    sid: u32,
    sender: R,
    events: Seq<Event<R, S>>,
    states: Seq<SocketState<R, S>>,
    n: int,
)
    requires
        history(sid, events, states),
        states[0].handlers.contains_pair(sid, Handler::Request(sender)),
        0 <= n <= events.len(),
    ensures
        ({
            let frames = answers_on(sid, events.take(n));
            &&& handed_over_on(sid, events.take(n)) == payloads_of(frames)
            &&& frames.len() <= 1
            &&& if frames.len() == 1 {
                !states[n].handlers.contains_key(sid)
            } else {
                states[n].handlers.contains_pair(sid, Handler::Request(sender))
            }
        }),
        n > 0 ==> events[n - 1].goes_to(sid, Handler::Request(sender)),
    decreases n,
{
    if n == 0 {
        assert(payloads_of(Seq::empty()) =~= Seq::empty());
    } else {
        let j = n - 1;
        lemma_request_so_far(sid, sender, events, states, j);
        assert(events.take(n).drop_last() =~= events.take(j));
        let event = events[j];
        assert(event.leads(states[j], states[j + 1]));
        if event.answer_on(sid) is None {
            lemma_other_events(sid, event, states[j], states[n]);
        } else {
            let earlier = answers_on(sid, events.take(j));
            let msg = event.answer_on(sid)->0;
            assert(payloads_of(earlier.push(msg)) =~= payloads_of(earlier).push(payload_of(msg)));
        }
    }
}

/// Whatever else happens at the requester, and whatever flags the answer has: what the first
/// answer on the stream of a request carries is what is handed over there, once, and to whom the
/// request named. More is awaited on the stream until that answer, and no answer comes in after
/// it.
pub proof fn answer_reaches_requester<R, S: Clone>(
    sid: u32,
    sender: R,
    events: Seq<Event<R, S>>,
    states: Seq<SocketState<R, S>>,
)
    requires
        history(sid, events, states),
        states[0].handlers.contains_pair(sid, Handler::Request(sender)),
    ensures
        handed_over_on(sid, events) == payloads_of(answers_on(sid, events)),
        forall|i: int|
            0 <= i < events.len() ==> (#[trigger] events[i]).goes_to(sid, Handler::Request(sender)),
        answers_on(sid, events).len() <= 1,
        answers_on(sid, events).len() == 1 ==> !states.last().handlers.contains_key(sid),
        answers_on(sid, events).len() == 0 ==> states.last().handlers.contains_pair(
            sid,
            Handler::Request(sender),
        ),
{
    let n = events.len() as int;
    lemma_request_so_far(sid, sender, events, states, n);
    assert(events.take(n) =~= events);
    assert forall|i: int| 0 <= i < n implies (#[trigger] events[i]).goes_to(
        sid,
        Handler::Request(sender),
    ) by {
        lemma_request_so_far(sid, sender, events, states, i + 1);
    }
}

/// Whatever else happens at the requester, the answer that a responder gives is what is handed
/// over there, and no more is awaited after it.
pub proof fn responder_answer_reaches_requester<R, S: Clone>(
    sid: u32,
    sender: R,
    answer: Payload,
    events: Seq<Event<R, S>>,
    states: Seq<SocketState<R, S>>,
)
    requires
        history(sid, events, states),
        states[0].handlers.contains_pair(sid, Handler::Request(sender)),
        answers_on(sid, events).len() == 1,
        answers(sid, Ok(answer), answers_on(sid, events)[0]),
    ensures
        handed_over_on(sid, events) == seq![answer],
        !states.last().handlers.contains_key(sid),
{
    answer_reaches_requester(sid, sender, events, states);
    assert(payloads_of(answers_on(sid, events)) =~= seq![answer]);
}

/// A frame changes at most what is awaited on its own stream, and never the ids to come.
pub proof fn other_streams_are_untouched<R, S: Clone>(
    state: SocketState<R, S>,
    acceptor: AcceptorKind,
    msg: Frame,
    action: Action<R, S>,
    next: SocketState<R, S>,
    other: u32,
)
    requires
        state.handles(acceptor, msg, action, next),
        other != msg.stream_id,
    ensures
        next.next_stream_id == state.next_stream_id,
        next.handlers.contains_key(other) == state.handlers.contains_key(other),
        state.handlers.contains_key(other) ==> next.handlers[other] == state.handlers[other],
{
}

/// A keepalive frame is answered if and only if it asks for it; the answer brings its data back
/// and asks for no answer itself.
pub proof fn keepalive_is_answered_once<R, S: Clone>(
    state: SocketState<R, S>,
    acceptor: AcceptorKind,
    msg: Frame,
    action: Action<R, S>,
    next: SocketState<R, S>,
    peer: SocketState<R, S>,
    peer_acceptor: AcceptorKind,
    peer_action: Action<R, S>,
    peer_next: SocketState<R, S>,
)
    requires
        msg.body is Keepalive,
        state.handles(acceptor, msg, action, next),
    ensures
        action is Send <==> has_flag(msg.flag, Frame::FLAG_RESPOND),
        action matches Action::Send(answer) ==> {
            &&& answer.body matches Body::Keepalive(v) && v.data == msg.body->Keepalive_0.data
            &&& peer.handles(peer_acceptor, answer, peer_action, peer_next) ==> peer_action
                == Action::<R, S>::Ignore
        },
{
    assert(0u16 & 0x0080u16 == 0) by (bit_vector);
}

/// `state` is that of an end whose first id was `first` and that has made `k` requests, pushes
/// included: the next id is the one after `k` others, and answers are awaited only on ids that
/// were handed out.
pub open spec fn opened<R, S>(first: u32, k: nat, state: SocketState<R, S>) -> bool {
    &&& state.next_stream_id == nth_stream_id(first, k)
    &&& forall|sid: u32| #[trigger]
        state.handlers.contains_key(sid) ==> exists|i: nat|
            i < k && sid == #[trigger] nth_stream_id(first, i)
}

/// A new end is in such a state.
pub proof fn new_end_is_opened<R, S>(first: u32)
    ensures
        opened(
            first,
            0,
            SocketState::<R, S> { next_stream_id: first, handlers: Map::empty() },
        ),
{
    stream_ids_count_on(first, 0);
}

/// Every request leads to the next such state, and no frame leads out of one.
pub proof fn event_keeps_opened<R, S: Clone>(
    first: u32,
    k: nat,
    event: Event<R, S>,
    before: SocketState<R, S>,
    after: SocketState<R, S>,
)
    requires
        opened(first, k, before),
        event.leads(before, after),
    ensures
        opened(
            first,
            if event is Received {
                k
            } else {
                k + 1
            },
            after,
        ),
{
    stream_ids_count_on(first, k);
    let made = if event is Received {
        k
    } else {
        k + 1
    };
    assert forall|sid: u32| #[trigger] after.handlers.contains_key(sid) implies exists|i: nat|
        i < made && sid == #[trigger] nth_stream_id(first, i) by {
        if before.handlers.contains_key(sid) {
            let i = choose|i: nat| i < k && sid == #[trigger] nth_stream_id(first, i);
            assert(i < made && sid == nth_stream_id(first, i));
        } else {
            assert(sid == nth_stream_id(first, k));
        }
    }
}

/// As long as an end has made fewer than 2^31 requests, a new request uses no id anew, and so
/// takes the answers of no other: no answer is awaited on its id yet.
pub proof fn new_request_takes_no_other_answers<R, S>(
    first: u32,
    k: nat,
    state: SocketState<R, S>,
    handler: Handler<R, S>,
)
    requires
        opened(first, k, state),
        k < 0x8000_0000,
    ensures
        forall|i: nat| i < k ==> state.next_stream_id != #[trigger] nth_stream_id(first, i),
        !state.handlers.contains_key(state.next_stream_id),
        state.request(handler).handlers.contains_pair(state.next_stream_id, handler),
        forall|sid: u32| #[trigger]
            state.handlers.contains_key(sid) ==> state.request(handler).handlers.contains_pair(
                sid,
                state.handlers[sid],
            ),
{
    assert forall|i: nat| i < k implies state.next_stream_id != #[trigger] nth_stream_id(
        first,
        i,
    ) by {
        stream_ids_are_distinct(first, i, k);
    }
}

/// The number of requests among `events`.
pub open spec fn requests_in<R, S: Clone>(events: Seq<Event<R, S>>) -> nat
    decreases events.len(),
{
    if events.len() == 0 {
        0
    } else {
        let earlier = requests_in(events.drop_last());
        if events.last() is Received {
            earlier
        } else {
            earlier + 1
        }
    }
}

/// No more requests are made earlier than in all.
proof fn lemma_earlier_requests<R, S: Clone>(events: Seq<Event<R, S>>, n: int)
    requires
        0 <= n <= events.len(),
    ensures
        requests_in(events.take(n)) <= requests_in(events),
    decreases events.len(),
{
    if n == events.len() {
        assert(events.take(n) =~= events);
    } else {
        lemma_earlier_requests(events.drop_last(), n);
        assert(events.drop_last().take(n) =~= events.take(n));
    }
}

/// Whatever happens at an end, each of its states is one that its requests so far lead to.
pub proof fn every_state_is_opened<R, S: Clone>(
    first: u32,
    k: nat,
    events: Seq<Event<R, S>>,
    states: Seq<SocketState<R, S>>,
    n: int,
)
    requires
        run(events, states),
        opened(first, k, states[0]),
        0 <= n <= events.len(),
    ensures
        opened(first, k + requests_in(events.take(n)), states[n]),
    decreases n,
{
    if n > 0 {
        let j = n - 1;
        every_state_is_opened(first, k, events, states, j);
        assert(events.take(n).drop_last() =~= events.take(j));
        assert(events[j].leads(states[j], states[j + 1]));
        let so_far = k + requests_in(events.take(j));
        event_keeps_opened(first, so_far, events[j], states[j], states[n]);
    }
}

/// Whatever happens at an end, as long as it makes at most 2^31 requests in all, none of them
/// uses an id anew that an earlier one used.
pub proof fn ids_are_not_used_anew<R, S: Clone>(
    first: u32,
    k: nat,
    i: nat,
    events: Seq<Event<R, S>>,
    states: Seq<SocketState<R, S>>,
)
    requires
        run(events, states),
        opened(first, k, states[0]),
        i < k,
        k + requests_in(events) <= 0x8000_0000,
    ensures
        history(nth_stream_id(first, i), events, states),
{
    assert forall|j: int| 0 <= j < events.len() && events[j] is Requested implies #[trigger] states[
        j].next_stream_id != nth_stream_id(first, i) by {
        every_state_is_opened(first, k, events, states, j);
        lemma_earlier_requests(events, j + 1);
        assert(events.take(j + 1).drop_last() =~= events.take(j));
        stream_ids_are_distinct(first, i, k + requests_in(events.take(j)));
    }
}

} // verus!
