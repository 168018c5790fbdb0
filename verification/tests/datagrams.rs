use jaegercat::error::DecodeError;
use jaegercat::listener::{on_compact, on_datagram, Format, Record, Step};
use jaegercat::thrift::{EmitBatchNotification, Protocol};
use jaegercat::wire::{MessageKind, WireMessage, MAX_DATAGRAM_LEN, STACK_PER_BYTE};
use thrift_codec::data::{Field, List, Struct};
use thrift_codec::message::Message;
use thrift_codec::{BinaryEncode, CompactDecode, CompactEncode};

fn message(service: &str) -> Message {
    Message::oneway(
        "emitBatch",
        1,
        Struct::new(vec![Field::new(
            1,
            Struct::new(vec![
                Field::new(1, Struct::new(vec![Field::new(1, service)])),
                Field::new(2, List::from(Vec::<Struct>::new())),
            ]),
        )]),
    )
}

fn buffer_with(message: &Message, protocol: Protocol, size: usize) -> (Vec<u8>, usize) {
    let mut bytes = Vec::new();
    match protocol {
        Protocol::Compact => message.compact_encode(&mut bytes).unwrap(),
        Protocol::Binary => message.binary_encode(&mut bytes).unwrap(),
    }
    let received = bytes.len();
    bytes.resize(size.max(received), 0xaa);
    (bytes, received)
}

/// What the compact decoder reads from the front of the bytes.
fn read_compact(bytes: &[u8]) -> Option<WireMessage> {
    let mut rest = bytes;
    let message = Message::compact_decode(&mut rest).ok()?;
    let kind = match message.kind() {
        thrift_codec::message::MessageKind::Call => MessageKind::Call,
        thrift_codec::message::MessageKind::Reply => MessageKind::Reply,
        thrift_codec::message::MessageKind::Exception => MessageKind::Exception,
        thrift_codec::message::MessageKind::Oneway => MessageKind::Oneway,
    };
    Some(WireMessage {
        method_name: message.method_name().to_owned(),
        kind,
        body: message.body().clone(),
    })
}

/// Runs the steps of a listener on one datagram.
fn handle<'a>(
    buf: &'a [u8],
    received: usize,
    protocol: Protocol,
    format: Format,
) -> Result<Record<'a>, DecodeError> {
    assert!(received.min(MAX_DATAGRAM_LEN) * STACK_PER_BYTE <= 2 << 20);
    match on_datagram(buf, received, protocol, format) {
        Step::Refuse(e) => Err(e),
        Step::Write(record) => Ok(record),
        Step::ReadCompact(bytes) => on_compact(bytes, read_compact(bytes), format),
    }
}

fn decode(bytes: &[u8], protocol: Protocol) -> EmitBatchNotification {
    EmitBatchNotification::decode(bytes, protocol, read_compact(bytes)).unwrap()
}

#[test]
fn raw_record_is_the_received_bytes() {
    for protocol in [Protocol::Compact, Protocol::Binary] {
        let (buf, received) = buffer_with(&message("svc"), protocol, 4096);
        match handle(&buf, received, protocol, Format::Raw) {
            Ok(Record::Raw(bytes)) => assert_eq!(bytes, &buf[..received]),
            other => panic!("unexpected: {:?}", other),
        }
    }
}

#[test]
fn json_records_carry_the_notification() {
    for protocol in [Protocol::Compact, Protocol::Binary] {
        let (buf, received) = buffer_with(&message("svc"), protocol, 65_000);
        let expected = decode(&buf[..received], protocol);
        assert_eq!(expected.batch.process.service_name, "svc");
        assert_eq!(
            handle(&buf, received, protocol, Format::Json),
            Ok(Record::Json(decode(&buf[..received], protocol)))
        );
        assert_eq!(
            handle(&buf, received, protocol, Format::JsonPretty),
            Ok(Record::JsonPretty(expected))
        );
    }
}

#[test]
fn binary_datagram_takes_one_step() {
    let (buf, received) = buffer_with(&message("svc"), Protocol::Binary, 1024);
    assert_eq!(
        on_datagram(&buf, received, Protocol::Binary, Format::Raw),
        Step::Write(Record::Raw(&buf[..received]))
    );
    assert_eq!(
        on_datagram(&buf, received, Protocol::Binary, Format::Json),
        Step::Write(Record::Json(decode(&buf[..received], Protocol::Binary)))
    );
    assert_eq!(
        on_datagram(&buf, received - 1, Protocol::Binary, Format::Json),
        Step::Refuse(DecodeError::Malformed)
    );
}

#[test]
fn compact_datagram_goes_to_the_compact_decoder() {
    let (buf, received) = buffer_with(&message("svc"), Protocol::Compact, 1024);
    for format in [Format::Raw, Format::Json, Format::JsonPretty] {
        assert_eq!(
            on_datagram(&buf, received, Protocol::Compact, format),
            Step::ReadCompact(&buf[..received])
        );
        assert_eq!(
            on_datagram(&buf, 0, Protocol::Compact, format),
            Step::ReadCompact(&buf[..0])
        );
    }
    let bytes = &buf[..received];
    assert_eq!(
        on_compact(bytes, read_compact(bytes), Format::Json),
        Ok(Record::Json(decode(bytes, Protocol::Compact)))
    );
    assert_eq!(on_compact(bytes, read_compact(bytes), Format::Raw), Ok(Record::Raw(bytes)));
    assert_eq!(on_compact(bytes, None, Format::Raw), Err(DecodeError::Malformed));
    assert_eq!(on_compact(bytes, None, Format::Json), Err(DecodeError::Malformed));
}

#[test]
fn only_the_received_bytes_are_decoded() {
    for protocol in [Protocol::Compact, Protocol::Binary] {
        let (buf, received) = buffer_with(&message("svc"), protocol, 1024);
        for format in [Format::Raw, Format::Json, Format::JsonPretty] {
            assert_eq!(
                handle(&buf, received - 1, protocol, format),
                Err(DecodeError::Malformed)
            );
            assert_eq!(handle(&buf, 0, protocol, format), Err(DecodeError::Malformed));
            assert!(handle(&buf, received, protocol, format).is_ok());
        }
    }
}

#[test]
fn faulty_datagram_gives_no_record_in_any_format() {
    let other = Message::call("emitBatch", 1, Struct::new(vec![]));
    for protocol in [Protocol::Compact, Protocol::Binary] {
        let (buf, received) = buffer_with(&other, protocol, 512);
        for format in [Format::Raw, Format::Json, Format::JsonPretty] {
            assert_eq!(
                handle(&buf, received, protocol, format),
                Err(DecodeError::UnexpectedKind { message_kind: MessageKind::Call })
            );
        }
    }
}

#[test]
fn a_faulty_datagram_does_not_touch_the_next_one() {
    for protocol in [Protocol::Compact, Protocol::Binary] {
        let (good, received) = buffer_with(&message("svc"), protocol, 512);
        let before = handle(&good, received, protocol, Format::Json);
        assert_eq!(handle(b"garbage", 7, protocol, Format::Json), Err(DecodeError::Malformed));
        let after = handle(&good, received, protocol, Format::Json);
        assert!(before.is_ok());
        assert_eq!(before, after);
    }
}

#[test]
fn datagram_that_fills_the_buffer() {
    let (buf, received) = buffer_with(&message("svc"), Protocol::Compact, 0);
    assert_eq!(buf.len(), received);
    assert!(handle(&buf, received, Protocol::Compact, Format::Raw).is_ok());
}

#[test]
fn longest_datagram_is_what_udp_carries() {
    assert_eq!(MAX_DATAGRAM_LEN, 65_535);
    assert_eq!(MAX_DATAGRAM_LEN * STACK_PER_BYTE, 65_535 * 2048);
}

#[test]
fn datagram_beyond_the_longest_is_refused_unread() {
    let (buf, received) = buffer_with(&message("svc"), Protocol::Compact, 70_000);
    assert!(handle(&buf, received, Protocol::Compact, Format::Json).is_ok());
    for protocol in [Protocol::Compact, Protocol::Binary] {
        for format in [Format::Raw, Format::Json, Format::JsonPretty] {
            assert_eq!(
                on_datagram(&buf, MAX_DATAGRAM_LEN + 1, protocol, format),
                Step::Refuse(DecodeError::TooLong { len: 65_536 })
            );
            assert_eq!(
                on_datagram(&buf, 70_000, protocol, format),
                Step::Refuse(DecodeError::TooLong { len: 70_000 })
            );
            assert_eq!(
                on_compact(&buf, None, format),
                Err(DecodeError::TooLong { len: 70_000 })
            );
        }
    }
}
