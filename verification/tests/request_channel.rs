use bytes::{Bytes, BytesMut};
use rsocket::errors::{ErrorKind, RSocketError};
use rsocket::frame::{
    read_payload, too_short, Body, Frame, PayloadSupport, RequestChannel, RequestChannelBuilder,
    REQUEST_MAX,
};
use rsocket::utils::Writeable;

fn channel(frame: Frame) -> RequestChannel {
    match frame.get_body() {
        Body::RequestChannel(v) => v,
        other => panic!("not a channel: {:?}", other),
    }
}

fn encode(v: &RequestChannel) -> BytesMut {
    let mut bf = BytesMut::new();
    v.write_to(&mut bf);
    bf
}

fn length_too_short(n: usize) -> RSocketError {
    RSocketError {
        kind: ErrorKind::LengthTooShort(n),
    }
}

#[test]
fn new_builder_has_no_payload_and_no_limit() {
    let frame = RequestChannelBuilder::new(1234, 0x0040).build();
    assert_eq!(frame.get_stream_id(), 1234);
    assert_eq!(frame.get_flag(), 0x0040);
    let v = channel(frame);
    assert_eq!(v.get_initial_request_n(), 0x7FFF_FFFF);
    assert_eq!(v.get_initial_request_n(), REQUEST_MAX);
    assert_eq!(v.get_metadata(), None);
    assert_eq!(v.get_data(), None);
    assert_eq!(v.split(), (None, None));
}

#[test]
fn builder_is_the_same_as_new() {
    assert_eq!(
        RequestChannel::builder(9, 7).build(),
        RequestChannelBuilder::new(9, 7).build()
    );
}

#[test]
fn setters_set_what_they_name() {
    let frame = RequestChannel::builder(1, 0)
        .set_initial_request_n(42)
        .set_data(Bytes::from("data"))
        .set_metadata(Bytes::from("metadata"))
        .build();
    assert_eq!(frame.get_flag(), 0x0100);
    let v = channel(frame);
    assert_eq!(v.get_initial_request_n(), 42);
    assert_eq!(v.get_data(), Some(&Bytes::from("data")));
    assert_eq!(v.get_metadata(), Some(&Bytes::from("metadata")));
    assert_eq!(
        v.split(),
        (Some(Bytes::from("data")), Some(Bytes::from("metadata")))
    );
}

#[test]
fn data_alone_is_not_announced() {
    let frame = RequestChannel::builder(1, 0).set_data(Bytes::from("d")).build();
    assert_eq!(frame.get_flag(), 0);
}

#[test]
fn set_all_sets_and_announces() {
    let frame = RequestChannel::builder(1, 0x0020)
        .set_all((Some(Bytes::from("d")), Some(Bytes::from("m"))))
        .build();
    assert_eq!(frame.get_flag(), 0x0120);
    assert_eq!(
        channel(frame).split(),
        (Some(Bytes::from("d")), Some(Bytes::from("m")))
    );
}

#[test]
fn set_all_removes_and_stops_announcing() {
    let frame = RequestChannel::builder(1, 0x0020)
        .set_metadata(Bytes::from("old"))
        .set_data(Bytes::from("old"))
        .set_all((None, None))
        .build();
    assert_eq!(frame.get_flag(), 0x0020);
    assert_eq!(channel(frame).split(), (None, None));

    let frame = RequestChannel::builder(1, 0x0120)
        .set_all((Some(Bytes::from("d")), None))
        .build();
    assert_eq!(frame.get_flag(), 0x0020);
    assert_eq!(channel(frame).split(), (Some(Bytes::from("d")), None));
}

#[test]
fn steps_commute_and_the_last_counts() {
    let a = RequestChannel::builder(5, 1)
        .set_data(Bytes::from("d"))
        .set_metadata(Bytes::from("m"))
        .set_initial_request_n(3)
        .build();
    let b = RequestChannel::builder(5, 1)
        .set_initial_request_n(2)
        .set_metadata(Bytes::from("x"))
        .set_initial_request_n(3)
        .set_metadata(Bytes::from("m"))
        .set_data(Bytes::from("d"))
        .build();
    let c = RequestChannel::builder(5, 1)
        .set_initial_request_n(3)
        .set_all((None, None))
        .set_all((Some(Bytes::from("d")), Some(Bytes::from("m"))))
        .build();
    assert_eq!(a, b);
    assert_eq!(a, c);
}

#[test]
fn encoding_is_number_then_metadata_then_data() {
    let v = channel(
        RequestChannel::builder(1, 0)
            .set_initial_request_n(0x0102_0304)
            .set_metadata(Bytes::from("mm"))
            .set_data(Bytes::from("ddd"))
            .build(),
    );
    let bf = encode(&v);
    assert_eq!(
        &bf[..],
        &[1, 2, 3, 4, 0, 0, 2, b'm', b'm', b'd', b'd', b'd'][..]
    );
    assert_eq!(v.len(), 12);
}

#[test]
fn encoding_without_payload_is_four_bytes() {
    let v = channel(RequestChannel::builder(1, 0).build());
    assert_eq!(&encode(&v)[..], &[0x7F, 0xFF, 0xFF, 0xFF][..]);
    assert_eq!(v.len(), 4);
}

#[test]
fn encoding_is_appended() {
    let v = channel(RequestChannel::builder(1, 0).set_initial_request_n(1).build());
    let mut bf = BytesMut::from(&b"head"[..]);
    v.write_to(&mut bf);
    assert_eq!(&bf[..], &b"head\0\0\0\x01"[..]);
}

#[test]
fn metadata_length_has_three_bytes() {
    let metadata = Bytes::from(vec![7u8; 0x01_02_03]);
    let v = channel(
        RequestChannel::builder(1, 0)
            .set_metadata(metadata.clone())
            .build(),
    );
    let mut bf = encode(&v);
    assert_eq!(bf.len(), 4 + 3 + 0x01_02_03);
    assert_eq!(&bf[4..7], &[1, 2, 3][..]);
    let back = RequestChannel::decode(Frame::FLAG_METADATA, &mut bf).unwrap();
    assert_eq!(back.get_metadata(), Some(&metadata));
}

#[test]
fn metadata_beyond_24_bits_keeps_the_low_bits_of_its_length() {
    let v = channel(
        RequestChannel::builder(1, 0)
            .set_metadata(Bytes::from(vec![7u8; 0x100_0001]))
            .build(),
    );
    assert_eq!(v.len(), 4 + 3 + 0x100_0001);
    let mut bf = encode(&v);
    assert_eq!(bf.len(), 4 + 3 + 0x100_0001);
    assert_eq!(&bf[4..7], &[0, 0, 1][..]);
    let back = RequestChannel::decode(Frame::FLAG_METADATA, &mut bf).unwrap();
    assert_eq!(back.get_metadata(), Some(&Bytes::from(vec![7u8])));
    assert_eq!(back.get_data(), Some(&Bytes::from(vec![7u8; 0x100_0000])));
}

#[test]
fn decode_gives_back_what_was_encoded() {
    let metadata = [None, Some(Bytes::new()), Some(Bytes::from("m"))];
    let data = [None, Some(Bytes::from("data"))];
    for m in metadata.iter() {
        for d in data.iter() {
            let frame = RequestChannel::builder(1, 0)
                .set_initial_request_n(0x8000_0001)
                .set_all((d.clone(), m.clone()))
                .build();
            let flag = frame.get_flag();
            let v = channel(frame);
            let mut bf = encode(&v);
            assert_eq!(bf.len(), v.len());
            let back = RequestChannel::decode(flag, &mut bf).unwrap();
            assert_eq!(back, v);
            assert!(bf.is_empty());
        }
    }
}

#[test]
fn empty_data_is_decoded_as_absent() {
    let v = channel(RequestChannel::builder(1, 0).set_data(Bytes::new()).build());
    let back = RequestChannel::decode(0, &mut encode(&v)).unwrap();
    assert_eq!(v.get_data(), Some(&Bytes::new()));
    assert_eq!(back.get_data(), None);
}

#[test]
fn decoded_bytes_are_encoded_to_the_same_bytes() {
    let cases: [(u16, &[u8]); 4] = [
        (0, &[0, 0, 0, 0]),
        (0, &[255, 254, 253, 252, 1, 2]),
        (0x0100, &[0, 0, 0, 9, 0, 0, 0]),
        (0x0160, &[0, 0, 0, 9, 0, 0, 2, 5, 6, 7]),
    ];
    for (flag, bytes) in cases.iter() {
        let v = RequestChannel::decode(*flag, &mut BytesMut::from(*bytes)).unwrap();
        assert_eq!(&encode(&v)[..], *bytes);
        assert_eq!(v.get_metadata().is_some(), flag & 0x0100 != 0);
    }
}

#[test]
fn decode_reads_metadata_only_where_it_is_announced() {
    let bytes = [0, 0, 0, 9, 0, 0, 1, 5, 6];
    let plain = RequestChannel::decode(0, &mut BytesMut::from(&bytes[..])).unwrap();
    assert_eq!(plain.get_initial_request_n(), 9);
    assert_eq!(plain.get_metadata(), None);
    assert_eq!(plain.get_data(), Some(&Bytes::from(vec![0, 0, 1, 5, 6])));
    let announced = RequestChannel::decode(0x0100, &mut BytesMut::from(&bytes[..])).unwrap();
    assert_eq!(announced.get_metadata(), Some(&Bytes::from(vec![5])));
    assert_eq!(announced.get_data(), Some(&Bytes::from(vec![6])));
}

#[test]
fn decode_fails_without_the_number() {
    for n in 0..4 {
        let mut bf = BytesMut::from(&[1, 2, 3][..n]);
        assert_eq!(
            RequestChannel::decode(0x0100, &mut bf),
            Err(length_too_short(4))
        );
        assert_eq!(&bf[..], &[1, 2, 3][..n]);
    }
}

#[test]
fn decode_fails_without_the_metadata_length() {
    let mut bf = BytesMut::from(&[0, 0, 0, 1, 0, 0][..]);
    assert_eq!(
        RequestChannel::decode(0x0100, &mut bf),
        Err(length_too_short(3))
    );
    assert_eq!(&bf[..], &[0, 0][..]);
}

#[test]
fn decode_fails_where_metadata_is_cut_off() {
    let mut bf = BytesMut::from(&[0, 0, 0, 1, 0, 1, 0, 7, 7][..]);
    assert_eq!(
        RequestChannel::decode(0x0100, &mut bf),
        Err(length_too_short(256))
    );
    assert_eq!(&bf[..], &[7, 7][..]);
}

#[test]
fn too_short_names_the_length() {
    assert_eq!(too_short::<u8>(17), Err(length_too_short(17)));
}

#[test]
fn payload_is_read_and_written() {
    let (m, d) = (Bytes::from("mm"), Bytes::from("d"));
    let mut bf = BytesMut::new();
    PayloadSupport::write(&mut bf, Some(&m), Some(&d));
    assert_eq!(&bf[..], &[0, 0, 2, b'm', b'm', b'd'][..]);
    assert_eq!(PayloadSupport::len(Some(&m), Some(&d)), 6);
    assert_eq!(PayloadSupport::len(None, Some(&d)), 1);
    assert_eq!(PayloadSupport::len(Some(&m), None), 5);
    assert_eq!(PayloadSupport::len(None, None), 0);
    assert_eq!(read_payload(0x0100, &mut bf), Ok((Some(m), Some(d))));
    assert!(bf.is_empty());
    assert_eq!(read_payload(0, &mut bf), Ok((None, None)));
}
