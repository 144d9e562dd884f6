use snaprust::message::{
    deserialize_i32, deserialize_u16, deserialize_u32, serialize_i32, serialize_u16, serialize_u32,
    BaseData, CodecHeaderData, DecodeError, FrameStep, HelloData, Message, MessageType, ServerSettingsData,
    SnapMessageData, TimeData, TimeVal, WireChunkData,
};

fn frame(type_: MessageType) -> Message {
    Message {
        type_,
        id: 7,
        refers_to: 3,
        received: TimeVal { sec: 100, usec: 200 },
        sent: TimeVal { sec: -5, usec: 999_999 },
    }
}

fn round_trip(m: &Message) -> Message {
    let bytes = m.serialize();
    let (back, used) = Message::deserialize(&bytes).unwrap();
    assert_eq!(used, bytes.len());
    assert_eq!(back.id, m.id);
    assert_eq!(back.refers_to, m.refers_to);
    assert_eq!(back.received, m.received);
    assert_eq!(back.sent, m.sent);
    back
}

fn raw_frame(type_: u16, payload: &[u8]) -> Vec<u8> {
    let mut v = Vec::new();
    v.extend_from_slice(&type_.to_le_bytes());
    v.extend_from_slice(&1u16.to_le_bytes());
    v.extend_from_slice(&2u16.to_le_bytes());
    for x in [10i32, 20, 30, 40] {
        v.extend_from_slice(&x.to_le_bytes());
    }
    v.extend_from_slice(&(payload.len() as u32).to_le_bytes());
    v.extend_from_slice(payload);
    v
}

#[test]
fn base_round_trip() {
    let back = round_trip(&frame(MessageType::Base(BaseData {})));
    assert!(matches!(back.type_, MessageType::Base(_)));
}

#[test]
fn codec_header_round_trip() {
    let m = frame(MessageType::CodecHeader(CodecHeaderData {
        codec: "pcm".to_string(),
        payload: vec![1, 2, 3, 4, 5],
    }));
    match round_trip(&m).type_ {
        MessageType::CodecHeader(d) => {
            assert_eq!(d.codec, "pcm");
            assert_eq!(d.payload, vec![1, 2, 3, 4, 5]);
        }
        other => panic!("unexpected {:?}", other),
    }
}

#[test]
fn codec_header_non_ascii_name_round_trip() {
    let m = frame(MessageType::CodecHeader(CodecHeaderData {
        codec: "flac-ü".to_string(),
        payload: vec![],
    }));
    match round_trip(&m).type_ {
        MessageType::CodecHeader(d) => assert_eq!(d.codec, "flac-ü"),
        other => panic!("unexpected {:?}", other),
    }
}

#[test]
fn wire_chunk_round_trip() {
    let m = frame(MessageType::WireChunk(WireChunkData {
        timestamp: TimeVal { sec: 1_700_000_000, usec: 123_456 },
        payload: vec![9, 8, 7],
    }));
    match round_trip(&m).type_ {
        MessageType::WireChunk(d) => {
            assert_eq!(d.timestamp, TimeVal { sec: 1_700_000_000, usec: 123_456 });
            assert_eq!(d.payload, vec![9, 8, 7]);
        }
        other => panic!("unexpected {:?}", other),
    }
}

#[test]
fn server_settings_round_trip() {
    let json = br#"{"muted":false,"bufferMs":1000,"latency":0,"volume":100}"#.to_vec();
    let m = frame(MessageType::ServerSettings(ServerSettingsData { json: json.clone() }));
    let bytes = m.serialize();
    assert_eq!(bytes.len(), 26 + json.len());
    match round_trip(&m).type_ {
        MessageType::ServerSettings(d) => assert_eq!(d.json, json),
        other => panic!("unexpected {:?}", other),
    }
}

#[test]
fn time_round_trip() {
    let m = frame(MessageType::Time(TimeData { latency: TimeVal { sec: 3, usec: -4 } }));
    match round_trip(&m).type_ {
        MessageType::Time(d) => assert_eq!(d.latency, TimeVal { sec: 3, usec: -4 }),
        other => panic!("unexpected {:?}", other),
    }
}

#[test]
fn hello_round_trip() {
    let json = br#"{"MAC":"00:00:00:00:00:00","Instance":1}"#.to_vec();
    let m = frame(MessageType::Hello(HelloData { json: json.clone() }));
    let bytes = m.serialize();
    assert_eq!(bytes.len(), 26 + 4 + json.len());
    assert_eq!(&bytes[26..30], &(json.len() as u32).to_le_bytes());
    match round_trip(&m).type_ {
        MessageType::Hello(d) => assert_eq!(d.json, json),
        other => panic!("unexpected {:?}", other),
    }
}

#[test]
fn time_frame_exact_bytes() {
    let m = Message {
        type_: MessageType::Time(TimeData { latency: TimeVal { sec: 1, usec: 2 } }),
        id: 0x0102,
        refers_to: 0,
        received: TimeVal { sec: -1, usec: 0 },
        sent: TimeVal { sec: 0, usec: 256 },
    };
    let expected: Vec<u8> = vec![
        4, 0, 2, 1, 0, 0, 255, 255, 255, 255, 0, 0, 0, 0, 0, 0, 0, 0, 0, 1, 0, 0, 8, 0, 0, 0, 1, 0,
        0, 0, 2, 0, 0, 0,
    ];
    assert_eq!(m.serialize(), expected);
}

#[test]
fn unknown_type_decodes_to_base() {
    let bytes = raw_frame(99, &[1, 2, 3]);
    let (m, used) = Message::deserialize(&bytes).unwrap();
    assert_eq!(used, bytes.len());
    assert!(matches!(m.type_, MessageType::Base(_)));
    assert_eq!(m.id, 1);
    assert_eq!(m.refers_to, 2);
    assert_eq!(m.received, TimeVal { sec: 10, usec: 20 });
    assert_eq!(m.sent, TimeVal { sec: 30, usec: 40 });
}

#[test]
fn codec_header_trailing_bytes_fail() {
    let mut payload = Vec::new();
    payload.extend_from_slice(&3u32.to_le_bytes());
    payload.extend_from_slice(b"pcm");
    payload.extend_from_slice(&2u32.to_le_bytes());
    payload.extend_from_slice(&[1, 2]);
    assert!(CodecHeaderData::deserialize(&payload).is_ok());
    payload.push(0);
    assert_eq!(CodecHeaderData::deserialize(&payload).unwrap_err(), DecodeError::TrailingBytes);
    let bytes = raw_frame(1, &payload);
    assert_eq!(Message::deserialize(&bytes).unwrap_err(), DecodeError::TrailingBytes);
}

#[test]
fn codec_header_truncated_fails() {
    let mut payload = Vec::new();
    payload.extend_from_slice(&3u32.to_le_bytes());
    payload.extend_from_slice(b"pcm");
    payload.extend_from_slice(&5u32.to_le_bytes());
    payload.extend_from_slice(&[1, 2]);
    assert_eq!(CodecHeaderData::deserialize(&payload).unwrap_err(), DecodeError::Truncated);
    assert_eq!(CodecHeaderData::deserialize(&[1, 0]).unwrap_err(), DecodeError::Truncated);
}

#[test]
fn codec_header_invalid_utf8_fails() {
    let mut payload = Vec::new();
    payload.extend_from_slice(&2u32.to_le_bytes());
    payload.extend_from_slice(&[0xff, 0xfe]);
    payload.extend_from_slice(&0u32.to_le_bytes());
    assert_eq!(CodecHeaderData::deserialize(&payload).unwrap_err(), DecodeError::InvalidUtf8);
}

#[test]
fn wire_chunk_errors() {
    let mut payload = Vec::new();
    payload.extend_from_slice(&1i32.to_le_bytes());
    payload.extend_from_slice(&2i32.to_le_bytes());
    payload.extend_from_slice(&(-1i32).to_le_bytes());
    assert_eq!(WireChunkData::deserialize(&payload).unwrap_err(), DecodeError::BadLength);
    let mut payload = Vec::new();
    payload.extend_from_slice(&1i32.to_le_bytes());
    payload.extend_from_slice(&2i32.to_le_bytes());
    payload.extend_from_slice(&2i32.to_le_bytes());
    payload.extend_from_slice(&[5, 6, 7]);
    assert_eq!(WireChunkData::deserialize(&payload).unwrap_err(), DecodeError::TrailingBytes);
    payload.truncate(13);
    assert_eq!(WireChunkData::deserialize(&payload).unwrap_err(), DecodeError::Truncated);
}

#[test]
fn hello_length_mismatch_fails() {
    let mut payload = Vec::new();
    payload.extend_from_slice(&3u32.to_le_bytes());
    payload.extend_from_slice(b"{}");
    assert_eq!(HelloData::deserialize(&payload).unwrap_err(), DecodeError::Truncated);
    payload.extend_from_slice(b"  ");
    assert_eq!(HelloData::deserialize(&payload).unwrap_err(), DecodeError::TrailingBytes);
}

#[test]
fn time_payload_too_short() {
    assert_eq!(TimeData::deserialize(&[1, 2, 3]).unwrap_err(), DecodeError::Truncated);
}

#[test]
fn short_buffer_is_incomplete() {
    let bytes = raw_frame(4, &[0; 8]);
    assert_eq!(Message::deserialize(&bytes[..10]).unwrap_err(), DecodeError::Incomplete);
    assert_eq!(Message::deserialize(&bytes[..30]).unwrap_err(), DecodeError::Incomplete);
    assert_eq!(Message::frame_size(&bytes[..10]), None);
    assert_eq!(Message::frame_size(&bytes[..30]), Some(34));
}

#[test]
fn frames_back_to_back() {
    let mut bytes = raw_frame(0, &[]);
    let second = raw_frame(4, &[1, 0, 0, 0, 2, 0, 0, 0]);
    bytes.extend_from_slice(&second);
    let (first, used) = Message::deserialize(&bytes).unwrap();
    assert_eq!(used, 26);
    assert!(matches!(first.type_, MessageType::Base(_)));
    let (next, used2) = Message::deserialize(&bytes[used..]).unwrap();
    assert_eq!(used2, 34);
    match next.type_ {
        MessageType::Time(d) => assert_eq!(d.latency, TimeVal { sec: 1, usec: 2 }),
        other => panic!("unexpected {:?}", other),
    }
}

#[test]
fn type_numbers() {
    assert_eq!(MessageType::Base(BaseData {}).into_int(), 0);
    assert_eq!(MessageType::Time(TimeData { latency: TimeVal { sec: 0, usec: 0 } }).into_int(), 4);
    assert_eq!(MessageType::Hello(HelloData { json: vec![] }).into_int(), 5);
}

#[test]
fn clock_reads_after_2020() {
    let t = TimeVal::new();
    assert!(t.sec > 1_577_836_800);
    assert!(t.usec >= 0 && t.usec < 1_000_000);
}

#[test]
fn integer_helpers() {
    assert_eq!(serialize_u16(0x1234), vec![0x34, 0x12]);
    assert_eq!(serialize_u32(0x01020304), vec![4, 3, 2, 1]);
    assert_eq!(serialize_i32(-2), vec![0xfe, 0xff, 0xff, 0xff]);
    assert_eq!(deserialize_u16(&[0x34, 0x12, 9]), 0x1234);
    assert_eq!(deserialize_u32(&[4, 3, 2, 1]), 0x01020304);
    assert_eq!(deserialize_i32(&[0xfe, 0xff, 0xff, 0xff]), -2);
}

#[test]
fn encodable_check() {
    assert!(MessageType::Base(BaseData {}).is_encodable());
    assert!(MessageType::WireChunk(WireChunkData {
        timestamp: TimeVal { sec: 0, usec: 0 },
        payload: vec![0; 16],
    })
    .is_encodable());
}

#[test]
fn next_frame_steps() {
    let mut payload = Vec::new();
    payload.extend_from_slice(&3u32.to_le_bytes());
    payload.extend_from_slice(b"pcm");
    payload.extend_from_slice(&0u32.to_le_bytes());
    payload.push(0);
    let mut bytes = raw_frame(1, &payload);
    let bad_len = bytes.len();
    bytes.extend_from_slice(&raw_frame(0, &[]));
    match Message::next_frame(&bytes) {
        FrameStep::Skip(e, n) => {
            assert_eq!(e, DecodeError::TrailingBytes);
            assert_eq!(n, bad_len);
        }
        other => panic!("unexpected {:?}", other),
    }
    match Message::next_frame(&bytes[bad_len..]) {
        FrameStep::Decoded(m, n) => {
            assert_eq!(n, 26);
            assert!(matches!(m.type_, MessageType::Base(_)));
        }
        other => panic!("unexpected {:?}", other),
    }
    assert!(matches!(Message::next_frame(&bytes[..20]), FrameStep::NeedMore));
}
