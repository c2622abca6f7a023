use bytes::BytesMut;
use tokio_examples::codec::{
    deserialize_packet, serialize_packet, serialized_size, Codec, CodecError, Packet, PacketFault,
};

fn encoded(packet: Packet) -> BytesMut {
    let mut buf = BytesMut::new();
    Codec::new().encode(packet, &mut buf).unwrap();
    buf
}

#[test]
fn connect_packet_matches_bincode_layout() {
    let buf = encoded(Packet::Connect { name: "bob".to_string() });
    let expected = bincode::serialize(&(0u32, "bob")).unwrap();
    assert_eq!(&buf[..], &expected[..]);
    assert_eq!(&buf[..], &[0, 0, 0, 0, 3, 0, 0, 0, 0, 0, 0, 0, b'b', b'o', b'b'][..]);
}

#[test]
fn ping_packet_is_its_variant_index() {
    let buf = encoded(Packet::Ping);
    assert_eq!(&buf[..], &[1, 0, 0, 0][..]);
}

#[test]
fn message_packet_matches_bincode_layout() {
    let buf = encoded(Packet::Message { msg: "héllo".to_string() });
    let expected = bincode::serialize(&(2u32, "héllo")).unwrap();
    assert_eq!(&buf[..], &expected[..]);
    assert_eq!(buf.len(), 4 + 8 + 6);
}

#[test]
fn connect_ack_matches_bincode_layout() {
    assert_eq!(&encoded(Packet::ConnectAck { accepted: true })[..], &[3, 0, 0, 0, 1][..]);
    assert_eq!(&encoded(Packet::ConnectAck { accepted: false })[..], &[3, 0, 0, 0, 0][..]);
    let expected = bincode::serialize(&(3u32, true)).unwrap();
    assert_eq!(&encoded(Packet::ConnectAck { accepted: true })[..], &expected[..]);
}

#[test]
fn encode_appends_after_existing_bytes() {
    let mut buf = BytesMut::from(&b"xy"[..]);
    Codec::new().encode(Packet::Ping, &mut buf).unwrap();
    assert_eq!(&buf[..], &[b'x', b'y', 1, 0, 0, 0][..]);
}

#[test]
fn decode_gives_back_each_encoded_packet() {
    let packets = vec![
        Packet::Connect { name: "alice".to_string() },
        Packet::Ping,
        Packet::Message { msg: "hi there".to_string() },
        Packet::Message { msg: String::new() },
    ];
    for p in packets {
        let expected = format!("{:?}", p);
        let mut buf = encoded(p);
        let mut codec = Codec::new();
        let got = codec.decode(&mut buf).unwrap().unwrap();
        assert_eq!(format!("{:?}", got), expected);
        assert!(buf.is_empty());
    }
}

#[test]
fn decode_takes_packets_in_order_and_leaves_the_rest() {
    let mut codec = Codec::new();
    let mut buf = BytesMut::new();
    codec.encode(Packet::Connect { name: "carol".to_string() }, &mut buf).unwrap();
    codec.encode(Packet::Message { msg: "one".to_string() }, &mut buf).unwrap();
    buf.extend_from_slice(&[2, 0, 0]);
    assert_eq!(codec.decode(&mut buf).unwrap(), Some(Packet::Connect { name: "carol".to_string() }));
    assert_eq!(codec.decode(&mut buf).unwrap(), Some(Packet::Message { msg: "one".to_string() }));
    assert_eq!(codec.decode(&mut buf).unwrap(), None);
    assert_eq!(&buf[..], &[2, 0, 0][..]);
}

#[test]
fn decode_waits_for_a_whole_packet() {
    let full = encoded(Packet::Message { msg: "partial".to_string() });
    let mut codec = Codec::new();
    for cut in 0..full.len() {
        let mut buf = BytesMut::from(&full[..cut]);
        assert_eq!(codec.decode(&mut buf).unwrap(), None);
        assert_eq!(&buf[..], &full[..cut]);
    }
    let mut buf = BytesMut::from(&full[..]);
    assert_eq!(codec.decode(&mut buf).unwrap(), Some(Packet::Message { msg: "partial".to_string() }));
}

#[test]
fn decode_refuses_an_unknown_variant() {
    let mut buf = BytesMut::from(&[7u8, 0, 0, 0, 9, 9][..]);
    assert_eq!(Codec::new().decode(&mut buf), Err(CodecError::UnknownVariant(7)));
    assert_eq!(buf.len(), 6);
}

#[test]
fn decode_refuses_bad_utf8() {
    let mut buf = BytesMut::from(&[0u8, 0, 0, 0, 2, 0, 0, 0, 0, 0, 0, 0, 0xff, 0xfe][..]);
    match Codec::new().decode(&mut buf) {
        Err(CodecError::InvalidData(text)) => assert!(text.contains("InvalidUtf8Encoding")),
        other => panic!("unexpected {:?}", other),
    }
    assert_eq!(buf.len(), 14);
}

#[test]
fn decode_refuses_variant_three() {
    let mut buf = BytesMut::from(&[3u8, 0, 0, 0][..]);
    assert_eq!(Codec::new().decode(&mut buf), Err(CodecError::UnknownVariant(3)));
    assert_eq!(&buf[..], &[3u8, 0, 0, 0][..]);
}

#[test]
fn decode_refuses_an_encoded_acknowledgement() {
    let mut buf = encoded(Packet::ConnectAck { accepted: true });
    assert_eq!(Codec::new().decode(&mut buf), Err(CodecError::UnknownVariant(3)));
    assert_eq!(&buf[..], &[3u8, 0, 0, 0, 1][..]);
}

#[test]
fn deserialize_packet_reports_end_of_input_and_faults() {
    assert_eq!(deserialize_packet(&[1, 0]), Err(PacketFault::EndOfInput));
    assert_eq!(deserialize_packet(&[0, 0, 0, 0, 5, 0, 0, 0, 0, 0, 0, 0, b'a']), Err(PacketFault::EndOfInput));
    assert_eq!(deserialize_packet(&[1, 0, 0, 0, 42]), Ok(Packet::Ping));
    assert_eq!(deserialize_packet(&[4, 0, 0, 0]), Err(PacketFault::UnknownVariant(4)));
    assert_eq!(deserialize_packet(&[3, 0, 0, 0, 1]), Err(PacketFault::UnknownVariant(3)));
    assert!(matches!(deserialize_packet(&[0, 0, 0, 0, 1, 0, 0, 0, 0, 0, 0, 0, 0xc0]), Err(PacketFault::Malformed(_))));
}

#[test]
fn serialized_size_counts_the_encoded_bytes() {
    let packets = vec![
        Packet::Connect { name: "dave".to_string() },
        Packet::Ping,
        Packet::Message { msg: "ünïcode".to_string() },
        Packet::ConnectAck { accepted: false },
    ];
    for p in packets {
        let bytes = serialize_packet(&p).unwrap();
        assert_eq!(serialized_size(&p).unwrap(), bytes.len() as u64);
    }
    assert_eq!(serialized_size(&Packet::Connect { name: "dave".to_string() }).unwrap(), 16);
}

#[test]
fn encode_fits_checks_the_allocation_bound() {
    let buf = BytesMut::from(&b"abc"[..]);
    assert!(tokio_examples::codec::encode_fits(&buf, &Packet::Ping));
    assert!(tokio_examples::codec::encode_fits(&buf, &Packet::Message { msg: "long enough".to_string() }));
    assert!(tokio_examples::codec::encode_fits(&BytesMut::new(), &Packet::ConnectAck { accepted: true }));
}

#[test]
fn decode_undoes_encode_on_an_empty_buffer() {
    let mut codec = Codec::new();
    let mut buf = BytesMut::new();
    codec.encode(Packet::Connect { name: "zoë".to_string() }, &mut buf).unwrap();
    assert_eq!(codec.decode(&mut buf).unwrap(), Some(Packet::Connect { name: "zoë".to_string() }));
    assert!(buf.is_empty());
}
