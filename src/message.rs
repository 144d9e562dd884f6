use vstd::prelude::*;
use vstd::utf8::{decode_utf8, encode_utf8, valid_utf8};
use vstd::string::StringSliceAdditionalSpecFns;
use crate::bytes::{
    lemma_i32_in, lemma_u16_in, lemma_u32_in,
    copy_range, i32_at, le_i32, le_u16, le_u32, push_bytes, push_i32, push_u16, push_u32, read_i32,
    read_u16, read_u32, u16_at, u32_at,
};

verus! {

/// The two little-endian bytes of `val`.
pub fn serialize_u16(val: u16) -> (r: Vec<u8>)
    ensures
        r@ == le_u16(val),
{
    let mut v: Vec<u8> = Vec::new();
    push_u16(&mut v, val);
    assert(v@ =~= le_u16(val));
    v
}

/// The four little-endian bytes of `val`.
pub fn serialize_u32(val: u32) -> (r: Vec<u8>)
    ensures
        r@ == le_u32(val),
{
    let mut v: Vec<u8> = Vec::new();
    push_u32(&mut v, val);
    assert(v@ =~= le_u32(val));
    v
}

/// The four little-endian two's complement bytes of `val`.
pub fn serialize_i32(val: i32) -> (r: Vec<u8>)
    ensures
        r@ == le_i32(val),
{
    let mut v: Vec<u8> = Vec::new();
    push_i32(&mut v, val);
    assert(v@ =~= le_i32(val));
    v
}

/// The `u16` in the first two bytes of `buf`.
pub fn deserialize_u16(buf: &[u8]) -> (r: u16)
    requires
        buf@.len() >= 2,
    ensures
        r == u16_at(buf@, 0),
{
    read_u16(buf, 0)
}

/// The `u32` in the first four bytes of `buf`.
pub fn deserialize_u32(buf: &[u8]) -> (r: u32)
    requires
        buf@.len() >= 4,
    ensures
        r == u32_at(buf@, 0),
{
    read_u32(buf, 0)
}

/// The `i32` in the first four bytes of `buf`.
pub fn deserialize_i32(buf: &[u8]) -> (r: i32)
    requires
        buf@.len() >= 4,
    ensures
        r == i32_at(buf@, 0),
{
    read_i32(buf, 0)
}

/// Size of the fixed frame header: type, id, refers_to, two time values and the payload length.
pub const BASE_MESSAGE_SIZE: usize = 26;

/// A clock reading: whole seconds and the microseconds beyond them.
#[derive(Debug, Clone, Copy, PartialEq, Eq, Structural)]
pub struct TimeVal {
    pub sec: i64,
    pub usec: i64,
}

/// Why a frame or a payload could not be decoded.
#[derive(Debug, Clone, Copy, PartialEq, Eq, Structural)]
pub enum DecodeError {
    /// The buffer ends before the frame does: wait for more bytes.
    Incomplete,
    /// A payload ends inside one of its own fields.
    Truncated,
    /// A payload holds bytes after its last declared field.
    TrailingBytes,
    /// A declared length is negative.
    BadLength,
    /// A text field is not valid UTF-8.
    InvalidUtf8,
}

/// The empty payload of an unknown or base message.
#[derive(Debug, Clone)]
pub struct BaseData {}

/// The JSON document that introduces this client to the server.
#[derive(Debug, Clone)]
pub struct HelloData {
    pub json: Vec<u8>,
}

/// The JSON document of playback settings that the server pushes.
#[derive(Debug, Clone)]
pub struct ServerSettingsData {
    pub json: Vec<u8>,
}

/// A clock-synchronisation probe or reply.
#[derive(Debug, Clone)]
pub struct TimeData {
    pub latency: TimeVal,
}

/// The codec of the stream and its configuration blob.
#[derive(Debug, Clone)]
pub struct CodecHeaderData {
    pub codec: String,
    pub payload: Vec<u8>,
}

/// One chunk of encoded audio with the server time it was captured at.
#[derive(Debug, Clone)]
pub struct WireChunkData {
    pub timestamp: TimeVal,
    pub payload: Vec<u8>,
}

/// The kind of a message together with its payload.
#[derive(Debug, Clone)]
pub enum MessageType {
    Base(BaseData),
    CodecHeader(CodecHeaderData),
    WireChunk(WireChunkData),
    ServerSettings(ServerSettingsData),
    Time(TimeData),
    Hello(HelloData),
}

/// One framed protocol message.
#[derive(Debug, Clone)]
pub struct Message {
    pub type_: MessageType,
    pub id: u16,
    pub refers_to: u16,
    pub received: TimeVal,
    pub sent: TimeVal,
}

/// The mathematical content of a `MessageType`.
pub enum KindView {
    Base,
    CodecHeader { codec: Seq<char>, payload: Seq<u8> },
    WireChunk { timestamp: TimeVal, payload: Seq<u8> },
    ServerSettings { json: Seq<u8> },
    Time { latency: TimeVal },
    Hello { json: Seq<u8> },
}

/// The mathematical content of a `Message`.
pub struct MessageView {
    pub kind: KindView,
    pub id: u16,
    pub refers_to: u16,
    pub received: TimeVal,
    pub sent: TimeVal,
}

impl View for MessageType {
    type V = KindView;

    open spec fn view(&self) -> KindView {
        match self {
            MessageType::Base(_) => KindView::Base,
            MessageType::CodecHeader(d) => KindView::CodecHeader { codec: d.codec@, payload: d.payload@ },
            MessageType::WireChunk(d) => KindView::WireChunk { timestamp: d.timestamp, payload: d.payload@ },
            MessageType::ServerSettings(d) => KindView::ServerSettings { json: d.json@ },
            MessageType::Time(d) => KindView::Time { latency: d.latency },
            MessageType::Hello(d) => KindView::Hello { json: d.json@ },
        }
    }
}

impl View for Message {
    type V = MessageView;

    open spec fn view(&self) -> MessageView {
        MessageView {
            kind: self.type_@,
            id: self.id,
            refers_to: self.refers_to,
            received: self.received,
            sent: self.sent,
        }
    }
}

/// Both fields of `t` fit the 32-bit wire fields unchanged.
pub open spec fn fits_wire(t: TimeVal) -> bool {
    i32::MIN <= t.sec <= i32::MAX && i32::MIN <= t.usec <= i32::MAX
}

/// The wire number of each kind.
pub open spec fn type_code(k: KindView) -> u16 {
    match k {
        KindView::Base => 0,
        KindView::CodecHeader { .. } => 1,
        KindView::WireChunk { .. } => 2,
        KindView::ServerSettings { .. } => 3,
        KindView::Time { .. } => 4,
        KindView::Hello { .. } => 5,
    }
}

/// The eight bytes of a time value: seconds, then microseconds.
pub open spec fn time_bytes(t: TimeVal) -> Seq<u8> {
    le_i32(t.sec as i32) + le_i32(t.usec as i32)
}

/// The payload bytes of each kind.
pub open spec fn payload_bytes(k: KindView) -> Seq<u8> {
    match k {
        KindView::Base => Seq::empty(),
        KindView::CodecHeader { codec, payload } => le_u32(encode_utf8(codec).len() as u32)
            + encode_utf8(codec) + le_u32(payload.len() as u32) + payload,
        KindView::WireChunk { timestamp, payload } => time_bytes(timestamp) + le_i32(
            payload.len() as i32,
        ) + payload,
        KindView::ServerSettings { json } => json,
        KindView::Time { latency } => time_bytes(latency),
        KindView::Hello { json } => le_u32(json.len() as u32) + json,
    }
}

/// Every length of the payload fits its wire field.
pub open spec fn encodable(k: KindView) -> bool {
    &&& payload_bytes(k).len() <= u32::MAX
    &&& (k matches KindView::WireChunk { payload, .. } ==> payload.len() <= i32::MAX)
}

/// Every field of `m` has a faithful wire form.
pub open spec fn message_encodable(m: MessageView) -> bool {
    &&& encodable(m.kind)
    &&& fits_wire(m.received)
    &&& fits_wire(m.sent)
    &&& (m.kind matches KindView::WireChunk { timestamp, .. } ==> fits_wire(timestamp))
    &&& (m.kind matches KindView::Time { latency } ==> fits_wire(latency))
}

/// The complete frame of a message.
pub open spec fn encode_frame(m: MessageView) -> Seq<u8> {
    le_u16(type_code(m.kind)) + le_u16(m.id) + le_u16(m.refers_to) + time_bytes(m.received)
        + time_bytes(m.sent) + le_u32(payload_bytes(m.kind).len() as u32) + payload_bytes(m.kind)
}

/// The time value stored at `at`.
pub open spec fn time_at(s: Seq<u8>, at: int) -> TimeVal {
    TimeVal { sec: i32_at(s, at) as i64, usec: i32_at(s, at + 4) as i64 }
}

pub open spec fn decode_time(p: Seq<u8>) -> Result<KindView, DecodeError> {
    if p.len() < 8 {
        Err(DecodeError::Truncated)
    } else {
        Ok(KindView::Time { latency: time_at(p, 0) })
    }
}

pub open spec fn decode_hello(p: Seq<u8>) -> Result<KindView, DecodeError> {
    if p.len() < 4 {
        Err(DecodeError::Truncated)
    } else if p.len() - 4 < u32_at(p, 0) {
        Err(DecodeError::Truncated)
    } else if p.len() - 4 > u32_at(p, 0) {
        Err(DecodeError::TrailingBytes)
    } else {
        Ok(KindView::Hello { json: p.subrange(4, p.len() as int) })
    }
}

pub open spec fn decode_codec_header(p: Seq<u8>) -> Result<KindView, DecodeError> {
    if p.len() < 4 {
        Err(DecodeError::Truncated)
    } else {
        let n = u32_at(p, 0) as int;
        if p.len() < 8 + n {
            Err(DecodeError::Truncated)
        } else {
            let m = u32_at(p, 4 + n) as int;
            if p.len() < 8 + n + m {
                Err(DecodeError::Truncated)
            } else if p.len() > 8 + n + m {
                Err(DecodeError::TrailingBytes)
            } else if !valid_utf8(p.subrange(4, 4 + n)) {
                Err(DecodeError::InvalidUtf8)
            } else {
                Ok(
                    KindView::CodecHeader {
                        codec: decode_utf8(p.subrange(4, 4 + n)),
                        payload: p.subrange(8 + n, p.len() as int),
                    },
                )
            }
        }
    }
}

pub open spec fn decode_wire_chunk(p: Seq<u8>) -> Result<KindView, DecodeError> {
    if p.len() < 12 {
        Err(DecodeError::Truncated)
    } else {
        let n = i32_at(p, 8) as int;
        if n < 0 {
            Err(DecodeError::BadLength)
        } else if p.len() < 12 + n {
            Err(DecodeError::Truncated)
        } else if p.len() > 12 + n {
            Err(DecodeError::TrailingBytes)
        } else {
            Ok(KindView::WireChunk { timestamp: time_at(p, 0), payload: p.subrange(12, p.len() as int) })
        }
    }
}

/// The payload of kind `code`; a number outside the known kinds is a base message.
pub open spec fn decode_payload(code: u16, p: Seq<u8>) -> Result<KindView, DecodeError> {
    if code == 1 {
        decode_codec_header(p)
    } else if code == 2 {
        decode_wire_chunk(p)
    } else if code == 3 {
        Ok(KindView::ServerSettings { json: p })
    } else if code == 4 {
        decode_time(p)
    } else if code == 5 {
        decode_hello(p)
    } else {
        Ok(KindView::Base)
    }
}

/// The length of the frame that starts `s`, once its header is complete.
pub open spec fn frame_len(s: Seq<u8>) -> int
    recommends
        s.len() >= 26,
{
    26 + u32_at(s, 22) as int
}

/// The first frame of `s` and how many bytes it takes.
pub open spec fn decode_frame(s: Seq<u8>) -> Result<(MessageView, int), DecodeError> {
    if s.len() < 26 || s.len() < frame_len(s) {
        Err(DecodeError::Incomplete)
    } else {
        match decode_payload(u16_at(s, 0), s.subrange(26, frame_len(s))) {
            Ok(kind) => Ok(
                (
                    MessageView {
                        kind,
                        id: u16_at(s, 2),
                        refers_to: u16_at(s, 4),
                        received: time_at(s, 6),
                        sent: time_at(s, 14),
                    },
                    frame_len(s),
                ),
            ),
            Err(e) => Err(e),
        }
    }
}


/// Relies on std::str::from_utf8: it accepts exactly the valid UTF-8 byte sequences and reads
/// them as the characters they encode.
#[verifier::external_body]
fn utf8_text(b: &[u8]) -> (r: Option<String>)
    ensures
        r is Some <==> valid_utf8(b@),
        r matches Some(s) ==> s@ == decode_utf8(b@),
{
    match std::str::from_utf8(b) {
        Ok(s) => Some(s.to_string()),
        Err(_) => None,
    }
}

/// A kind of message payload that has its own wire encoding.
pub trait SnapMessageData: Sized {
    /// The kind and payload this value stands for.
    spec fn kind_view(&self) -> KindView;

    /// The wire number of the kind.
    spec fn kind_code() -> u16;

    fn serialize_vec(&self) -> (r: Vec<u8>)
        requires
            encodable(self.kind_view()),
        ensures
            r@ == payload_bytes(self.kind_view()),
    ;

    fn deserialize(data: &[u8]) -> (r: Result<Self, DecodeError>)
        ensures
            match r {
                Ok(d) => decode_payload(Self::kind_code(), data@) == Ok::<KindView, DecodeError>(
                    d.kind_view(),
                ),
                Err(e) => decode_payload(Self::kind_code(), data@) == Err::<KindView, DecodeError>(e),
            },
    ;
}

/// Latest clock reading that `TimeVal::new` reports, in seconds since the epoch.
pub const MAX_CLOCK_SECONDS: i64 = 1000000000000;

/// A reading of the local wall clock that millisecond arithmetic can take.
pub open spec fn clock_ok(t: TimeVal) -> bool {
    0 <= t.sec <= MAX_CLOCK_SECONDS && 0 <= t.usec < 1_000_000
}

/// Relies on std::time::SystemTime::elapsed, applied to UNIX_EPOCH: the time since the epoch
/// as whole seconds and the nanoseconds beyond them, or None where the clock reads earlier.
#[verifier::external_body]
fn since_epoch() -> (r: Option<(u64, u32)>)
    ensures
        r matches Some((_, nanos)) ==> nanos < 1_000_000_000,
{
    match std::time::UNIX_EPOCH.elapsed() {
        Ok(d) => Some((d.as_secs(), d.subsec_nanos())),
        Err(_) => None,
    }
}

/// The time value for a reading of the clock since the epoch, given as whole seconds and the
/// nanoseconds beyond them. A reading before the epoch (`None`) or past `MAX_CLOCK_SECONDS`
/// stands for the epoch itself.
pub open spec fn time_from(since: Option<(u64, u32)>) -> TimeVal {
    match since {
        Some((s, n)) => if s <= MAX_CLOCK_SECONDS {
            TimeVal { sec: s as i64, usec: (n / 1000) as i64 }
        } else {
            TimeVal { sec: 0, usec: 0 }
        },
        None => TimeVal { sec: 0, usec: 0 },
    }
}

impl TimeVal {
    /// The time value for a clock reading since the epoch, as `time_from` states.
    pub fn from_since_epoch(since: Option<(u64, u32)>) -> (r: TimeVal)
        requires
            since matches Some((_, n)) ==> n < 1_000_000_000,
        ensures
            r == time_from(since),
            clock_ok(r),
    {
        match since {
            Some((secs, nanos)) => {
                if secs <= MAX_CLOCK_SECONDS as u64 {
                    TimeVal { sec: secs as i64, usec: (nanos / 1000) as i64 }
                } else {
                    TimeVal { sec: 0, usec: 0 }
                }
            },
            None => TimeVal { sec: 0, usec: 0 },
        }
    }

    /// The local wall clock now, as `from_since_epoch` turns the clock's reading into a time
    /// value.
    pub fn new() -> (r: TimeVal)
        ensures
            clock_ok(r),
            exists|since: Option<(u64, u32)>|
                (since matches Some((_, n)) ==> n < 1_000_000_000) && r == time_from(since),
    {
        let since = since_epoch();
        TimeVal::from_since_epoch(since)
    }

    /// The wire form of this time value.
    pub fn serialize(&self) -> (r: Vec<u8>)
        ensures
            r@ == time_bytes(*self),
    {
        let mut v: Vec<u8> = Vec::new();
        push_i32(&mut v, self.sec as i32);
        push_i32(&mut v, self.usec as i32);
        assert(v@ =~= time_bytes(*self));
        v
    }

    /// The time value stored at `at`.
    fn read(data: &[u8], at: usize) -> (r: TimeVal)
        requires
            at + 8 <= data@.len(),
        ensures
            r == time_at(data@, at as int),
    {
        // `data.len()` bounds `at + 8`, so the offsets below cannot overflow.
        let len = data.len();
        assert(at + 8 <= len);
        TimeVal { sec: read_i32(data, at) as i64, usec: read_i32(data, at + 4) as i64 }
    }
}

impl SnapMessageData for BaseData {
    open spec fn kind_view(&self) -> KindView {
        KindView::Base
    }

    open spec fn kind_code() -> u16 {
        0
    }

    fn serialize_vec(&self) -> (r: Vec<u8>) {
        let v: Vec<u8> = Vec::new();
        assert(v@ =~= payload_bytes(self.kind_view()));
        v
    }

    fn deserialize(data: &[u8]) -> (r: Result<Self, DecodeError>) {
        Ok(BaseData {  })
    }
}

impl SnapMessageData for HelloData {
    open spec fn kind_view(&self) -> KindView {
        KindView::Hello { json: self.json@ }
    }

    open spec fn kind_code() -> u16 {
        5
    }

    fn serialize_vec(&self) -> (r: Vec<u8>) {
        let mut v: Vec<u8> = Vec::new();
        push_u32(&mut v, self.json.len() as u32);
        push_bytes(&mut v, self.json.as_slice());
        assert(v@ =~= payload_bytes(self.kind_view()));
        v
    }

    fn deserialize(data: &[u8]) -> (r: Result<Self, DecodeError>) {
        let len = data.len();
        if len < 4 {
            return Err(DecodeError::Truncated);
        }
        let n = read_u32(data, 0);
        if ((len - 4) as u64) < n as u64 {
            Err(DecodeError::Truncated)
        } else if ((len - 4) as u64) > n as u64 {
            Err(DecodeError::TrailingBytes)
        } else {
            Ok(HelloData { json: copy_range(data, 4, len) })
        }
    }
}

impl SnapMessageData for ServerSettingsData {
    open spec fn kind_view(&self) -> KindView {
        KindView::ServerSettings { json: self.json@ }
    }

    open spec fn kind_code() -> u16 {
        3
    }

    fn serialize_vec(&self) -> (r: Vec<u8>) {
        let mut v: Vec<u8> = Vec::new();
        push_bytes(&mut v, self.json.as_slice());
        assert(v@ =~= payload_bytes(self.kind_view()));
        v
    }

    fn deserialize(data: &[u8]) -> (r: Result<Self, DecodeError>) {
        let json = copy_range(data, 0, data.len());
        assert(json@ =~= data@);
        Ok(ServerSettingsData { json })
    }
}

impl SnapMessageData for TimeData {
    open spec fn kind_view(&self) -> KindView {
        KindView::Time { latency: self.latency }
    }

    open spec fn kind_code() -> u16 {
        4
    }

    fn serialize_vec(&self) -> (r: Vec<u8>) {
        self.latency.serialize()
    }

    fn deserialize(data: &[u8]) -> (r: Result<Self, DecodeError>) {
        if data.len() < 8 {
            Err(DecodeError::Truncated)
        } else {
            Ok(TimeData { latency: TimeVal::read(data, 0) })
        }
    }
}

impl SnapMessageData for CodecHeaderData {
    open spec fn kind_view(&self) -> KindView {
        KindView::CodecHeader { codec: self.codec@, payload: self.payload@ }
    }

    open spec fn kind_code() -> u16 {
        1
    }

    fn serialize_vec(&self) -> (r: Vec<u8>) {
        let name = self.codec.as_str().as_bytes();
        let mut v: Vec<u8> = Vec::new();
        push_u32(&mut v, name.len() as u32);
        push_bytes(&mut v, name);
        push_u32(&mut v, self.payload.len() as u32);
        push_bytes(&mut v, self.payload.as_slice());
        assert(v@ =~= payload_bytes(self.kind_view()));
        v
    }

    fn deserialize(data: &[u8]) -> (r: Result<Self, DecodeError>) {
        let len = data.len();
        if len < 4 {
            return Err(DecodeError::Truncated);
        }
        let n = read_u32(data, 0);
        if (len as u64) < 8 + n as u64 {
            return Err(DecodeError::Truncated);
        }
        let name_end = 4 + n as usize;
        let m = read_u32(data, name_end);
        if (len as u64) < 8 + n as u64 + m as u64 {
            Err(DecodeError::Truncated)
        } else if (len as u64) > 8 + n as u64 + m as u64 {
            Err(DecodeError::TrailingBytes)
        } else {
            let name = copy_range(data, 4, name_end);
            match utf8_text(name.as_slice()) {
                None => Err(DecodeError::InvalidUtf8),
                Some(codec) => Ok(CodecHeaderData { codec, payload: copy_range(data, name_end + 4, len) }),
            }
        }
    }
}

impl SnapMessageData for WireChunkData {
    open spec fn kind_view(&self) -> KindView {
        KindView::WireChunk { timestamp: self.timestamp, payload: self.payload@ }
    }

    open spec fn kind_code() -> u16 {
        2
    }

    fn serialize_vec(&self) -> (r: Vec<u8>) {
        let mut v = self.timestamp.serialize();
        push_i32(&mut v, self.payload.len() as i32);
        push_bytes(&mut v, self.payload.as_slice());
        assert(v@ =~= payload_bytes(self.kind_view()));
        v
    }

    fn deserialize(data: &[u8]) -> (r: Result<Self, DecodeError>) {
        let len = data.len();
        if len < 12 {
            return Err(DecodeError::Truncated);
        }
        let n = read_i32(data, 8);
        if n < 0 {
            Err(DecodeError::BadLength)
        } else if ((len - 12) as u64) < n as u64 {
            Err(DecodeError::Truncated)
        } else if ((len - 12) as u64) > n as u64 {
            Err(DecodeError::TrailingBytes)
        } else {
            Ok(WireChunkData { timestamp: TimeVal::read(data, 0), payload: copy_range(data, 12, len) })
        }
    }
}

impl MessageType {
    /// The wire number of this kind.
    pub fn into_int(&self) -> (r: u16)
        ensures
            r == type_code(self@),
    {
        match self {
            MessageType::Base(_) => 0,
            MessageType::CodecHeader(_) => 1,
            MessageType::WireChunk(_) => 2,
            MessageType::ServerSettings(_) => 3,
            MessageType::Time(_) => 4,
            MessageType::Hello(_) => 5,
        }
    }

    /// Whether every length in the payload fits its wire field, so that the message can be
    /// framed.
    pub fn is_encodable(&self) -> (r: bool)
        ensures
            r == encodable(self@),
    {
        match self {
            MessageType::Base(_) => true,
            MessageType::CodecHeader(d) => {
                let n = d.codec.as_str().as_bytes().len() as u128;
                8 + n + d.payload.len() as u128 <= u32::MAX as u128
            },
            MessageType::WireChunk(d) => 12 + d.payload.len() as u128 <= u32::MAX as u128
                && d.payload.len() as u128 <= i32::MAX as u128,
            MessageType::ServerSettings(d) => d.json.len() as u128 <= u32::MAX as u128,
            MessageType::Time(_) => true,
            MessageType::Hello(d) => 4 + d.json.len() as u128 <= u32::MAX as u128,
        }
    }

    /// The payload bytes of this kind.
    pub fn serialize_vec(&self) -> (r: Vec<u8>)
        requires
            encodable(self@),
        ensures
            r@ == payload_bytes(self@),
    {
        match self {
            MessageType::Base(d) => d.serialize_vec(),
            MessageType::CodecHeader(d) => d.serialize_vec(),
            MessageType::WireChunk(d) => d.serialize_vec(),
            MessageType::ServerSettings(d) => d.serialize_vec(),
            MessageType::Time(d) => d.serialize_vec(),
            MessageType::Hello(d) => d.serialize_vec(),
        }
    }

    /// The payload of kind `code`; an unknown number gives a base message.
    pub fn deserialize(code: u16, data: &[u8]) -> (r: Result<MessageType, DecodeError>)
        ensures
            match r {
                Ok(k) => decode_payload(code, data@) == Ok::<KindView, DecodeError>(k@),
                Err(e) => decode_payload(code, data@) == Err::<KindView, DecodeError>(e),
            },
    {
        if code == 1 {
            match CodecHeaderData::deserialize(data) {
                Ok(d) => Ok(MessageType::CodecHeader(d)),
                Err(e) => Err(e),
            }
        } else if code == 2 {
            match WireChunkData::deserialize(data) {
                Ok(d) => Ok(MessageType::WireChunk(d)),
                Err(e) => Err(e),
            }
        } else if code == 3 {
            match ServerSettingsData::deserialize(data) {
                Ok(d) => Ok(MessageType::ServerSettings(d)),
                Err(e) => Err(e),
            }
        } else if code == 4 {
            match TimeData::deserialize(data) {
                Ok(d) => Ok(MessageType::Time(d)),
                Err(e) => Err(e),
            }
        } else if code == 5 {
            match HelloData::deserialize(data) {
                Ok(d) => Ok(MessageType::Hello(d)),
                Err(e) => Err(e),
            }
        } else {
            Ok(MessageType::Base(BaseData {  }))
        }
    }
}

/// What to do with the bytes at the start of a receive buffer.
#[derive(Debug)]
pub enum FrameStep {
    /// A frame decoded into a message, taking this many bytes.
    Decoded(Message, usize),
    /// The buffer ends inside the first frame: wait for more bytes.
    NeedMore,
    /// The first frame is complete but does not decode: drop this many bytes to reach the next.
    Skip(DecodeError, usize),
}

impl Message {
    /// The complete frame of this message.
    pub fn serialize(&self) -> (r: Vec<u8>)
        requires
            encodable(self.type_@),
        ensures
            r@ == encode_frame(self@),
    {
        let mut out: Vec<u8> = Vec::new();
        push_u16(&mut out, self.type_.into_int());
        push_u16(&mut out, self.id);
        push_u16(&mut out, self.refers_to);
        let received = self.received.serialize();
        push_bytes(&mut out, received.as_slice());
        let sent = self.sent.serialize();
        push_bytes(&mut out, sent.as_slice());
        let data = self.type_.serialize_vec();
        push_u32(&mut out, data.len() as u32);
        push_bytes(&mut out, data.as_slice());
        out
    }

    /// The length of the frame that starts `data`, once its fixed header has arrived.
    pub fn frame_size(data: &[u8]) -> (r: Option<u64>)
        ensures
            data@.len() < 26 ==> r is None,
            data@.len() >= 26 ==> r == Some(frame_len(data@) as u64),
    {
        if data.len() < BASE_MESSAGE_SIZE {
            None
        } else {
            Some(26 + read_u32(data, 22) as u64)
        }
    }

    /// The step a receiver takes on the buffer `data`: a decoded frame, a wait for more bytes,
    /// or a complete frame that does not decode and is skipped whole, so that the next frame
    /// starts where it ends.
    pub fn next_frame(data: &[u8]) -> (r: FrameStep)
        ensures
            match r {
                FrameStep::Decoded(m, n) => decode_frame(data@) == Ok::<
                    (MessageView, int),
                    DecodeError,
                >((m@, n as int)),
                FrameStep::NeedMore => decode_frame(data@) == Err::<(MessageView, int), DecodeError>(
                    DecodeError::Incomplete,
                ),
                FrameStep::Skip(e, n) => {
                    &&& e != DecodeError::Incomplete
                    &&& decode_frame(data@) == Err::<(MessageView, int), DecodeError>(e)
                    &&& n == frame_len(data@)
                    &&& n <= data@.len()
                },
            },
    {
        match Message::deserialize(data) {
            Ok((m, n)) => FrameStep::Decoded(m, n),
            Err(DecodeError::Incomplete) => FrameStep::NeedMore,
            Err(e) => {
                // Only an incomplete frame fails before its end has arrived.
                let len = data.len();
                let n = read_u32(data, 22);
                assert(26 + n <= len);
                FrameStep::Skip(e, 26 + n as usize)
            },
        }
    }

    /// Decodes the frame at the start of `data`, returning it with the number of bytes it took.
    pub fn deserialize(data: &[u8]) -> (r: Result<(Message, usize), DecodeError>)
        ensures
            match r {
                Ok((m, n)) => decode_frame(data@) == Ok::<(MessageView, int), DecodeError>(
                    (m@, n as int),
                ),
                Err(e) => decode_frame(data@) == Err::<(MessageView, int), DecodeError>(e),
            },
    {
        let len = data.len();
        if len < BASE_MESSAGE_SIZE {
            return Err(DecodeError::Incomplete);
        }
        let n = read_u32(data, 22);
        if ((len - 26) as u64) < n as u64 {
            return Err(DecodeError::Incomplete);
        }
        let end = 26 + n as usize;
        let payload = copy_range(data, 26, end);
        match MessageType::deserialize(read_u16(data, 0), payload.as_slice()) {
            Ok(type_) => {
                let m = Message {
                    type_,
                    id: read_u16(data, 2),
                    refers_to: read_u16(data, 4),
                    received: TimeVal::read(data, 6),
                    sent: TimeVal::read(data, 14),
                };
                Ok((m, end))
            },
            Err(e) => Err(e),
        }
    }
}


/// Each time value that fits the wire reads back from its eight bytes.
proof fn lemma_time_in(s: Seq<u8>, at: int, t: TimeVal)
    requires
        fits_wire(t),
        0 <= at,
        at + 8 <= s.len(),
        s.subrange(at, at + 8) == time_bytes(t),
    ensures
        time_at(s, at) == t,
{
    let tb = time_bytes(t);
    assert(tb.subrange(0, 4) =~= le_i32(t.sec as i32));
    assert(tb.subrange(4, 8) =~= le_i32(t.usec as i32));
    assert(s.subrange(at, at + 4) =~= tb.subrange(0, 4));
    assert(s.subrange(at + 4, at + 8) =~= tb.subrange(4, 8));
    lemma_i32_in(s, at, t.sec as i32);
    lemma_i32_in(s, at + 4, t.usec as i32);
}

/// Each payload kind decodes back from its own encoding.
proof fn lemma_payload_round_trip(k: KindView)
    requires
        encodable(k),
        k matches KindView::WireChunk { timestamp, .. } ==> fits_wire(timestamp),
        k matches KindView::Time { latency } ==> fits_wire(latency),
    ensures
        decode_payload(type_code(k), payload_bytes(k)) == Ok::<KindView, DecodeError>(k),
{
    let p = payload_bytes(k);
    match k {
        KindView::Base => {},
        KindView::CodecHeader { codec, payload } => {
            let name = encode_utf8(codec);
            let n = name.len() as int;
            assert(p.subrange(0, 4) =~= le_u32(n as u32));
            lemma_u32_in(p, 0, n as u32);
            assert(p.subrange(4 + n, 8 + n) =~= le_u32(payload.len() as u32));
            lemma_u32_in(p, 4 + n, payload.len() as u32);
            assert(p.subrange(4, 4 + n) =~= name);
            assert(p.subrange(8 + n, p.len() as int) =~= payload);
            vstd::utf8::encode_utf8_valid_utf8(codec);
            vstd::utf8::encode_utf8_decode_utf8(codec);
        },
        KindView::WireChunk { timestamp, payload } => {
            assert(p.subrange(0, 8) =~= time_bytes(timestamp));
            lemma_time_in(p, 0, timestamp);
            assert(p.subrange(8, 12) =~= le_i32(payload.len() as i32));
            lemma_i32_in(p, 8, payload.len() as i32);
            assert(p.subrange(12, p.len() as int) =~= payload);
        },
        KindView::ServerSettings { json } => {},
        KindView::Time { latency } => {
            assert(p.subrange(0, 8) =~= p);
            lemma_time_in(p, 0, latency);
        },
        KindView::Hello { json } => {
            assert(p.subrange(0, 4) =~= le_u32(json.len() as u32));
            lemma_u32_in(p, 0, json.len() as u32);
            assert(p.subrange(4, p.len() as int) =~= json);
        },
    }
}

/// Decoding the frame of a message whose fields all fit their wire form gives back that
/// message, field for field, and takes the whole frame.
pub proof fn lemma_round_trip(m: MessageView)
    requires
        message_encodable(m),
    ensures
        decode_frame(encode_frame(m)) == Ok::<(MessageView, int), DecodeError>(
            (m, encode_frame(m).len() as int),
        ),
{
    let e = encode_frame(m);
    let p = payload_bytes(m.kind);
    assert(e.subrange(0, 2) =~= le_u16(type_code(m.kind)));
    lemma_u16_in(e, 0, type_code(m.kind));
    assert(e.subrange(2, 4) =~= le_u16(m.id));
    lemma_u16_in(e, 2, m.id);
    assert(e.subrange(4, 6) =~= le_u16(m.refers_to));
    lemma_u16_in(e, 4, m.refers_to);
    assert(e.subrange(6, 14) =~= time_bytes(m.received));
    lemma_time_in(e, 6, m.received);
    assert(e.subrange(14, 22) =~= time_bytes(m.sent));
    lemma_time_in(e, 14, m.sent);
    assert(e.subrange(22, 26) =~= le_u32(p.len() as u32));
    lemma_u32_in(e, 22, p.len() as u32);
    assert(e.subrange(26, e.len() as int) =~= p);
    lemma_payload_round_trip(m.kind);
}

/// A complete frame whose type number is none of the known kinds decodes, without error, to
/// a base message that keeps the header's fields and takes the whole frame.
pub proof fn lemma_unknown_type_is_base(s: Seq<u8>)
    requires
        s.len() >= 26,
        s.len() >= frame_len(s),
        u16_at(s, 0) > 5,
    ensures
        decode_frame(s) == Ok::<(MessageView, int), DecodeError>(
            (
                MessageView {
                    kind: KindView::Base,
                    id: u16_at(s, 2),
                    refers_to: u16_at(s, 4),
                    received: time_at(s, 6),
                    sent: time_at(s, 14),
                },
                frame_len(s),
            ),
        ),
{
}

/// A codec header payload with bytes after its two declared fields is refused, whatever
/// those fields hold.
pub proof fn lemma_codec_header_trailing(p: Seq<u8>, extra: Seq<u8>)
    requires
        p.len() >= 4,
        p.len() >= 8 + u32_at(p, 0),
        p.len() == 8 + u32_at(p, 0) + u32_at(p, 4 + u32_at(p, 0)),
        extra.len() > 0,
    ensures
        decode_payload(1, p + extra) == Err::<KindView, DecodeError>(DecodeError::TrailingBytes),
{
    let q = p + extra;
    let n = u32_at(p, 0) as int;
    assert(u32_at(q, 0) == u32_at(p, 0));
    assert(u32_at(q, 4 + n) == u32_at(p, 4 + n));
}

} // verus!
