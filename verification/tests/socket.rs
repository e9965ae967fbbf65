use bytes::Bytes;
use rsocket::errors::{ErrorKind, RSocketError};
use rsocket::frame::{
    self, Body, Frame, Keepalive, Lease, RequestChannel, RequestN, Resume, ResumeOK,
    ERR_APPLICATION, REQUEST_MAX,
};
use rsocket::payload::{Payload, SetupPayload};
use rsocket::transport::{
    AcceptorKind, Action, Delivery, DuplexSocket, Handlers, SetupAction, StreamID,
};
use std::sync::mpsc;
use std::time::Duration;

type Socket = DuplexSocket<&'static str, &'static str>;

fn payload(data: &'static str, metadata: &'static str) -> Payload {
    Payload {
        metadata: Some(Bytes::from(metadata)),
        data: Some(Bytes::from(data)),
    }
}

fn data_only(data: &'static str) -> Payload {
    Payload {
        metadata: None,
        data: Some(Bytes::from(data)),
    }
}

fn described(text: &'static str) -> RSocketError {
    RSocketError {
        kind: ErrorKind::WithDescription(text),
    }
}

fn setup_payload() -> SetupPayload {
    SetupPayload {
        metadata: Some(Bytes::from("m")),
        data: Some(Bytes::from("d")),
        data_mime_type: Some("text/plain".to_string()),
        metadata_mime_type: None,
        keepalive_interval: Duration::from_secs(20),
        keepalive_lifetime: Duration::from_secs(90),
    }
}

#[test]
fn stream_ids_step_by_two() {
    let mut ids = StreamID::from(1);
    assert_eq!([ids.next(), ids.next(), ids.next()], [1, 3, 5]);
    let mut ids = StreamID::from(2);
    assert_eq!([ids.next(), ids.next()], [2, 4]);
}

#[test]
fn stream_ids_wrap_around() {
    let mut ids = StreamID::from(u32::MAX);
    assert_eq!([ids.next(), ids.next()], [u32::MAX, 1]);
}

#[test]
fn ends_with_odd_and_even_ids_do_not_meet() {
    let mut odd = StreamID::from(1);
    let mut even = StreamID::from(2);
    let odd: Vec<u32> = (0..50).map(|_| odd.next()).collect();
    let even: Vec<u32> = (0..50).map(|_| even.next()).collect();
    assert!(odd.iter().all(|id| id % 2 == 1));
    assert!(even.iter().all(|id| id % 2 == 0));
    assert_eq!((odd[49], even[49]), (99, 100));
}

#[test]
fn new_socket_awaits_nothing() {
    let _handlers: Handlers<u8, u8> = Handlers::new();
    let socket = Socket::new(1);
    assert!(!socket.has_handler(0));
    assert!(!socket.has_handler(1));
}

#[test]
fn setup_carries_everything() {
    let frame = Socket::new(1).setup(setup_payload());
    assert_eq!(frame.get_stream_id(), 0);
    assert_eq!(frame.get_flag(), Frame::FLAG_METADATA);
    assert_eq!(
        frame.get_body(),
        Body::Setup(frame::Setup {
            keepalive: Duration::from_secs(20),
            lifetime: Duration::from_secs(90),
            mime_metadata: None,
            mime_data: Some("text/plain".to_string()),
            metadata: Some(Bytes::from("m")),
            data: Some(Bytes::from("d")),
        })
    );
}

#[test]
fn setup_without_metadata_has_no_flag() {
    let mut setup = setup_payload();
    setup.metadata = None;
    assert_eq!(Socket::new(1).setup(setup).get_flag(), 0);
}

#[test]
fn setup_reaches_the_acceptor() {
    let setup = |kind: AcceptorKind| {
        let frame = Socket::new(1).setup(setup_payload());
        match Socket::new(2).on_frame(kind, frame) {
            Action::Setup(action) => action,
            other => panic!("unexpected: {:?}", other),
        }
    };
    match setup(AcceptorKind::Generate) {
        SetupAction::Generate(got) => assert_eq!(got, setup_payload()),
        other => panic!("unexpected: {:?}", other),
    }
    assert!(matches!(setup(AcceptorKind::Empty), SetupAction::Empty));
    assert!(matches!(setup(AcceptorKind::Direct), SetupAction::Keep));
}

#[test]
fn metadata_push_sends_metadata_only() {
    let mut socket = Socket::new(1);
    let frame = socket.metadata_push(payload("d", "m"));
    assert_eq!(
        frame,
        Frame::new(
            1,
            Body::MetadataPush(frame::MetadataPush {
                metadata: Some(Bytes::from("m"))
            }),
            0x0100
        )
    );
    assert!(!socket.has_handler(1));
    assert_eq!(socket.metadata_push(data_only("d")).get_flag(), 0);
    match Socket::new(2).on_frame(AcceptorKind::Empty, frame) {
        Action::MetadataPush(got) => {
            assert_eq!(got.metadata, Some(Bytes::from("m")));
            assert_eq!(got.data, None);
        }
        other => panic!("unexpected: {:?}", other),
    }
}

#[test]
fn fire_and_forget_reaches_the_responder() {
    let mut socket = Socket::new(1);
    let frame = socket.fire_and_forget(payload("d", "m"));
    assert_eq!(frame.get_stream_id(), 1);
    assert_eq!(frame.get_flag(), 0x0100);
    assert!(!socket.has_handler(1));
    match Socket::new(2).on_frame(AcceptorKind::Empty, frame) {
        Action::FireAndForget { stream_id, payload: got } => {
            assert_eq!(stream_id, 1);
            assert_eq!(got, payload("d", "m"));
        }
        other => panic!("unexpected: {:?}", other),
    }
}

#[test]
fn request_response_round_trip() {
    let mut client = Socket::new(1);
    let mut server = Socket::new(2);
    let frame = client.request_response(payload("ping", "m"), "asker");
    assert_eq!(frame.get_stream_id(), 1);
    assert!(client.has_handler(1));
    let sid = match server.on_frame(AcceptorKind::Empty, frame) {
        Action::RequestResponse { stream_id, payload: got } => {
            assert_eq!(got, payload("ping", "m"));
            stream_id
        }
        other => panic!("unexpected: {:?}", other),
    };
    let answer = Socket::on_request_response(sid, Ok(payload("pong", "n")));
    assert_eq!(answer.get_stream_id(), 1);
    assert_eq!(answer.get_flag(), 0x0140);
    match client.on_frame(AcceptorKind::Empty, answer) {
        Action::Deliver(Delivery::Reply(sender, got)) => {
            assert_eq!(sender, "asker");
            assert_eq!(got, payload("pong", "n"));
        }
        other => panic!("unexpected: {:?}", other),
    }
    assert!(!client.has_handler(1));
}

#[test]
fn failed_request_is_answered_with_an_error() {
    let answer = Socket::on_request_response(7, Err(described("no")));
    assert_eq!(answer.get_stream_id(), 7);
    assert_eq!(answer.get_flag(), 0);
    assert_eq!(
        answer.get_body(),
        Body::Error(frame::Error {
            code: ERR_APPLICATION,
            data: Some(Bytes::from(&b"TODO: should be error details"[..])),
        })
    );
    assert_eq!(ERR_APPLICATION, 0x201);

    let mut client = Socket::new(7);
    client.request_response(data_only("ping"), "asker");
    let answer = Socket::on_request_response(7, Err(described("no")));
    assert!(matches!(
        client.on_frame(AcceptorKind::Empty, answer),
        Action::Ignore
    ));
    assert!(client.has_handler(7));
}

#[test]
fn stream_round_trip() {
    let mut client = Socket::new(1);
    let mut server = Socket::new(2);
    let frame = client.request_stream(data_only("count"), "listener");
    assert_eq!(frame.get_flag(), 0);
    match &frame.body {
        Body::RequestStream(v) => assert_eq!(v.initial_request_n, REQUEST_MAX),
        other => panic!("unexpected: {:?}", other),
    }
    let sid = match server.on_frame(AcceptorKind::Empty, frame) {
        Action::RequestStream { stream_id, payload: got } => {
            assert_eq!(got, data_only("count"));
            stream_id
        }
        other => panic!("unexpected: {:?}", other),
    };
    for (data, metadata) in [("one", "1"), ("two", "2"), ("three", "3")].iter() {
        let (item, more) = Socket::on_request_stream(sid, Some(Ok(payload(data, metadata))));
        assert!(more);
        assert_eq!(item.get_flag(), 0x0120);
        match client.on_frame(AcceptorKind::Empty, item) {
            Action::Deliver(Delivery::Next(sender, got)) => {
                assert_eq!(sender, "listener");
                assert_eq!(got, payload(data, metadata));
            }
            other => panic!("unexpected: {:?}", other),
        }
        assert!(client.has_handler(1));
    }
    let (end, more) = Socket::on_request_stream(sid, None);
    assert!(!more);
    assert_eq!(
        end,
        Frame::new(
            1,
            Body::Payload(frame::Payload {
                metadata: None,
                data: None
            }),
            0x0040
        )
    );
    assert!(matches!(
        client.on_frame(AcceptorKind::Empty, end),
        Action::Deliver(Delivery::Nothing)
    ));
    assert!(!client.has_handler(1));
}

#[test]
fn last_item_can_come_with_the_end() {
    let mut client = Socket::new(1);
    client.request_stream(data_only("q"), "listener");
    match client.on_payload(1, Frame::FLAG_NEXT | Frame::FLAG_COMPLETE, data_only("x")) {
        Delivery::Next(_, got) => assert_eq!(got, data_only("x")),
        other => panic!("unexpected: {:?}", other),
    }
    assert!(!client.has_handler(1));
}

#[test]
fn stream_answer_without_next_is_not_handed_over() {
    let mut client = Socket::new(1);
    client.request_stream(data_only("q"), "listener");
    assert!(matches!(
        client.on_payload(1, 0, data_only("x")),
        Delivery::Nothing
    ));
    assert!(client.has_handler(1));
}

#[test]
fn request_takes_its_answer_whatever_the_flags() {
    let mut client = Socket::new(1);
    client.request_response(data_only("q"), "asker");
    assert!(matches!(
        client.on_payload(1, 0, data_only("x")),
        Delivery::Reply("asker", _)
    ));
    assert!(!client.has_handler(1));
}

#[test]
fn each_answer_goes_to_its_own_request() {
    let mut client = Socket::new(1);
    client.request_response(data_only("a"), "a");
    client.request_stream(data_only("b"), "b");
    client.fire_and_forget(data_only("c"));
    client.request_response(data_only("d"), "d");
    assert!(client.has_handler(1) && client.has_handler(3) && client.has_handler(7));
    assert!(!client.has_handler(5));
    match client.on_payload(7, Frame::FLAG_COMPLETE, data_only("x")) {
        Delivery::Reply(sender, _) => assert_eq!(sender, "d"),
        other => panic!("unexpected: {:?}", other),
    }
    assert!(client.has_handler(1) && client.has_handler(3) && !client.has_handler(7));
}

#[test]
fn streams_keep_their_order_among_other_traffic() {
    let mut client = Socket::new(1);
    client.request_stream(data_only("q"), "first");
    client.request_stream(data_only("q"), "second");
    client.request_response(data_only("q"), "asker");
    let item = |sid: u32, data: &'static str| {
        Socket::on_request_stream(sid, Some(Ok(data_only(data)))).0
    };
    let frames = vec![
        item(1, "a"),
        item(3, "x"),
        Socket::on_request_response(5, Ok(data_only("reply"))),
        item(3, "y"),
        item(1, "b"),
        Socket::on_request_stream(3, None).0,
        item(1, "c"),
        Socket::on_request_stream(1, None).0,
    ];
    let mut got = Vec::new();
    for msg in frames {
        client.fire_and_forget(data_only("more"));
        match client.on_frame(AcceptorKind::Direct, msg) {
            Action::Deliver(Delivery::Next(to, p)) | Action::Deliver(Delivery::Reply(to, p)) => {
                got.push((to, p))
            }
            Action::Deliver(Delivery::Nothing) => (),
            other => panic!("unexpected: {:?}", other),
        }
    }
    assert_eq!(
        got,
        vec![
            ("first", data_only("a")),
            ("second", data_only("x")),
            ("asker", data_only("reply")),
            ("second", data_only("y")),
            ("first", data_only("b")),
            ("first", data_only("c")),
        ]
    );
    assert!(!client.has_handler(1) && !client.has_handler(3) && !client.has_handler(5));
}

#[test]
fn real_channels_carry_the_answers() {
    let mut client: DuplexSocket<mpsc::Sender<Payload>, mpsc::Sender<Payload>> =
        DuplexSocket::new(1);
    let (tx, rx) = mpsc::channel();
    client.request_stream(data_only("q"), tx);
    for data in ["a", "b"].iter() {
        match client.on_payload(1, Frame::FLAG_NEXT, data_only(data)) {
            Delivery::Next(sender, got) => sender.send(got).unwrap(),
            other => panic!("unexpected: {:?}", other),
        }
    }
    client.on_payload(1, Frame::FLAG_COMPLETE, data_only("ignored"));
    let got: Vec<Payload> = rx.iter().collect();
    assert_eq!(got, vec![data_only("a"), data_only("b")]);
}

#[test]
fn keepalive_is_answered_where_asked_for() {
    let keepalive = |flag: u16| {
        Frame::new(
            0,
            Body::Keepalive(Keepalive {
                last_received_position: 99,
                data: Some(Bytes::from("beat")),
            }),
            flag,
        )
    };
    let mut socket = Socket::new(1);
    let answer = match socket.on_frame(AcceptorKind::Empty, keepalive(Frame::FLAG_RESPOND)) {
        Action::Send(answer) => answer,
        other => panic!("unexpected: {:?}", other),
    };
    assert_eq!(
        answer,
        Frame::new(
            0,
            Body::Keepalive(Keepalive {
                last_received_position: 0,
                data: Some(Bytes::from("beat")),
            }),
            0
        )
    );
    assert!(matches!(
        socket.on_frame(AcceptorKind::Empty, answer),
        Action::Ignore
    ));
    assert!(matches!(
        socket.on_frame(AcceptorKind::Empty, keepalive(0xFF7F)),
        Action::Ignore
    ));
}

#[test]
fn other_frames_are_ignored() {
    let bodies = vec![
        Body::Resume(Resume {
            token: None,
            last_received_position: 1,
            first_available_position: 2,
        }),
        Body::ResumeOK(ResumeOK { position: 3 }),
        RequestChannel::builder(1, 0).build().get_body(),
        Body::RequestN(RequestN { n: 4 }),
        Body::Error(frame::Error {
            code: 5,
            data: None,
        }),
        Body::Cancel(),
        Body::Lease(Lease {
            ttl: 6,
            number_of_requests: 7,
            metadata: None,
        }),
    ];
    let mut socket = Socket::new(1);
    socket.request_response(data_only("q"), "asker");
    for body in bodies {
        let action = socket.on_frame(AcceptorKind::Generate, Frame::new(1, body, 0xFFFF));
        assert!(matches!(action, Action::Ignore));
        assert!(socket.has_handler(1));
    }
}

#[test]
fn outcomes_of_requests() {
    assert_eq!(Socket::metadata_push_result(true), Ok(()));
    assert_eq!(
        Socket::metadata_push_result(false),
        Err(described("send metadata_push failed"))
    );
    assert_eq!(Socket::fire_and_forget_result(true), Ok(()));
    assert_eq!(
        Socket::fire_and_forget_result(false),
        Err(described("send fire_and_forget failed"))
    );
    assert_eq!(
        Socket::request_response_result(Some(Ok(data_only("x")))),
        Ok(data_only("x"))
    );
    assert_eq!(
        Socket::request_response_result(Some(Err(described("no")))),
        Err(described("no"))
    );
    assert_eq!(
        Socket::request_response_result(None),
        Err(described("request_response failed"))
    );
}
