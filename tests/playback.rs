use snaprust::client::{handle_codec_header, handle_wire_chunk, time_sync_due, time_sync_request, ClientState};
use snaprust::decoder::{
    parse_riff_header, ActiveDecoder, Decoder, DecoderError, DummyDecoder, PCMDecoder,
};
use snaprust::message::{CodecHeaderData, Message, MessageType, TimeData, TimeVal, WireChunkData};
use snaprust::scheduler::{PendingChunk, PlaybackScheduler};

fn chunk(ts: u64, samples: Vec<i16>) -> PendingChunk {
    PendingChunk { timestamp_ms: ts, samples }
}

fn riff_header() -> Vec<u8> {
    let mut h = Vec::new();
    h.extend_from_slice(b"RIFF");
    h.extend_from_slice(&36u32.to_le_bytes());
    h.extend_from_slice(b"WAVE");
    h.extend_from_slice(b"fmt ");
    h.extend_from_slice(&16u32.to_le_bytes());
    h.extend_from_slice(&1i16.to_le_bytes());
    h.extend_from_slice(&2i16.to_le_bytes());
    h.extend_from_slice(&48000u32.to_le_bytes());
    h.extend_from_slice(&192000u32.to_le_bytes());
    h.extend_from_slice(&4i16.to_le_bytes());
    h.extend_from_slice(&16i16.to_le_bytes());
    h.extend_from_slice(b"data");
    h.extend_from_slice(&0u32.to_le_bytes());
    h
}

#[test]
fn admission_boundary() {
    let t: u64 = 100_000;
    let mut s = PlaybackScheduler::new();
    // ages 0, -101 and 101 under (ts + 1000 + 150) - now
    s.push_chunk(chunk(t - 1150, vec![1]));
    s.push_chunk(chunk(t - 1251, vec![2]));
    s.push_chunk(chunk(t - 1049, vec![3]));
    let run = s.tick(t, 1000);
    assert_eq!(run, vec![1]);
    assert_eq!(s.pending_len(), 1);
    assert_eq!(s.pending_timestamp(0), t - 1049);
}

#[test]
fn ready_window_edges() {
    let t: u64 = 50_000;
    let mut s = PlaybackScheduler::new();
    s.push_chunk(chunk(t - 1050, vec![6]));
    s.push_chunk(chunk(t - 1150, vec![7]));
    s.push_chunk(chunk(t - 1151, vec![8]));
    let run = s.tick(t, 1000);
    assert_eq!(run, vec![7, 6]);
    assert_eq!(s.pending_len(), 0);
}

#[test]
fn ready_run_in_timestamp_order() {
    let mut s = PlaybackScheduler::with_output_latency(150);
    s.push_chunk(chunk(30, vec![30, 31]));
    s.push_chunk(chunk(10, vec![10, 11]));
    s.push_chunk(chunk(20, vec![20, 21]));
    assert_eq!(s.pending_timestamp(0), 10);
    assert_eq!(s.pending_timestamp(2), 30);
    let run = s.tick(1100, 1000);
    assert_eq!(run, vec![10, 11, 20, 21, 30, 31]);
    assert_eq!(s.pending_len(), 0);
}

#[test]
fn equal_timestamps_keep_arrival_order() {
    let mut s = PlaybackScheduler::new();
    s.push_chunk(chunk(5, vec![1]));
    s.push_chunk(chunk(5, vec![2]));
    s.push_chunk(chunk(4, vec![0]));
    let run = s.tick(1100, 1000);
    assert_eq!(run, vec![0, 1, 2]);
}

#[test]
fn requeued_chunk_played_on_later_tick() {
    let mut s = PlaybackScheduler::new();
    s.push_chunk(chunk(1000, vec![4, 5]));
    assert!(s.tick(2000, 1000).is_empty());
    assert_eq!(s.pending_len(), 1);
    assert_eq!(s.tick(2100, 1000), vec![4, 5]);
    assert_eq!(s.pending_len(), 0);
}

#[test]
fn too_late_chunk_dropped() {
    let mut s = PlaybackScheduler::new();
    s.push_chunk(chunk(1000, vec![4, 5]));
    assert!(s.tick(3000, 1000).is_empty());
    assert_eq!(s.pending_len(), 0);
}

#[test]
fn pcm_decode_samples() {
    let d = PCMDecoder;
    assert_eq!(d.decode(&[0x01, 0x00, 0x02, 0x00]).unwrap(), vec![1, 2]);
    assert_eq!(d.decode(&[0x01, 0x00, 0x02]).unwrap_err(), DecoderError::OddLength);
    assert_eq!(d.decode(&[0xff, 0xff, 0x00, 0x80]).unwrap(), vec![-1, i16::MIN]);
    assert!(d.decode(&[]).unwrap().is_empty());
}

#[test]
fn dummy_decoder_is_silent() {
    let d = DummyDecoder;
    assert!(d.decode(&[1, 2, 3, 4]).unwrap().is_empty());
    assert!(d.decode(&[1, 2, 3]).unwrap().is_empty());
}

#[test]
fn riff_header_fields() {
    let h = parse_riff_header(&riff_header()).unwrap();
    assert_eq!(h.num_channels, 2);
    assert_eq!(h.sample_rate, 48000);
    assert_eq!(h.bits_per_sample, 16);
    assert_eq!(h.block_align, 4);
    assert_eq!(parse_riff_header(&[0; 43]).unwrap_err(), DecoderError::HeaderTooShort);
}

#[test]
fn codec_header_selects_decoder() {
    let pcm = CodecHeaderData { codec: "pcm".to_string(), payload: riff_header() };
    assert!(matches!(handle_codec_header(&pcm), ActiveDecoder::Pcm(_)));
    let short = CodecHeaderData { codec: "pcm".to_string(), payload: vec![0; 10] };
    assert!(matches!(handle_codec_header(&short), ActiveDecoder::Dummy(_)));
    let flac = CodecHeaderData { codec: "flac".to_string(), payload: riff_header() };
    assert!(matches!(handle_codec_header(&flac), ActiveDecoder::Dummy(_)));
}

#[test]
fn wire_chunk_to_pending() {
    let data = WireChunkData {
        timestamp: TimeVal { sec: 12, usec: 345_678 },
        payload: vec![3, 0, 4, 0],
    };
    assert!(handle_wire_chunk(&None, &data).is_none());
    let c = handle_wire_chunk(&Some(ActiveDecoder::Pcm(PCMDecoder)), &data).unwrap();
    assert_eq!(c.timestamp_ms, 12_345);
    assert_eq!(c.samples, vec![3, 4]);
    let odd = WireChunkData { timestamp: TimeVal { sec: 1, usec: 0 }, payload: vec![1] };
    assert!(handle_wire_chunk(&Some(ActiveDecoder::Pcm(PCMDecoder)), &odd).is_none());
}

#[test]
fn client_dispatch() {
    let mut c = ClientState::new();
    let header = Message {
        type_: MessageType::CodecHeader(CodecHeaderData { codec: "pcm".to_string(), payload: riff_header() }),
        id: 0,
        refers_to: 0,
        received: TimeVal { sec: 0, usec: 0 },
        sent: TimeVal { sec: 0, usec: 0 },
    };
    assert!(c.handle_message(header));
    let chunk = Message {
        type_: MessageType::WireChunk(WireChunkData {
            timestamp: TimeVal { sec: 1, usec: 0 },
            payload: vec![9, 0],
        }),
        id: 1,
        refers_to: 0,
        received: TimeVal { sec: 0, usec: 0 },
        sent: TimeVal { sec: 0, usec: 0 },
    };
    assert!(!c.handle_message(chunk));
    let time = Message {
        type_: MessageType::Time(TimeData { latency: TimeVal { sec: 0, usec: 3_000 } }),
        id: 2,
        refers_to: 0,
        received: TimeVal { sec: 0, usec: 0 },
        sent: TimeVal { sec: 0, usec: 0 },
    };
    assert!(!c.handle_message(time));
    assert_eq!(c.time_provider.get_diff_to_server(), 3);
    assert_eq!(c.play_tick(2100), vec![9]);
}

#[test]
fn wire_chunk_with_large_timestamp() {
    let data = WireChunkData {
        timestamp: TimeVal { sec: 2_147_483_648, usec: 1_000 },
        payload: vec![1, 0],
    };
    let c = handle_wire_chunk(&Some(ActiveDecoder::Pcm(PCMDecoder)), &data).unwrap();
    assert_eq!(c.timestamp_ms, 2_147_483_648_001);
    let negative = WireChunkData { timestamp: TimeVal { sec: -1, usec: 0 }, payload: vec![1, 0] };
    assert!(handle_wire_chunk(&Some(ActiveDecoder::Pcm(PCMDecoder)), &negative).is_none());
    let huge = WireChunkData { timestamp: TimeVal { sec: i64::MAX, usec: 0 }, payload: vec![1, 0] };
    assert!(handle_wire_chunk(&Some(ActiveDecoder::Pcm(PCMDecoder)), &huge).is_none());
}

#[test]
fn time_sync_schedule() {
    assert!(!time_sync_due(499));
    assert!(time_sync_due(500));
    let now = TimeVal { sec: 4, usec: 5 };
    let m = time_sync_request(now);
    assert_eq!(m.received, now);
    match m.type_ {
        MessageType::Time(d) => assert_eq!(d.latency, TimeVal { sec: 0, usec: 0 }),
        other => panic!("unexpected {:?}", other),
    }
}
