use vstd::prelude::*;
use vstd::string::StringSliceAdditionalSpecFns;
use vstd::utf8::encode_utf8;
use crate::decoder::{ActiveDecoder, Decoder, DummyDecoder, PCMDecoder};
use crate::message::{
    CodecHeaderData, Message, MessageType, MessageView, TimeData, TimeVal, WireChunkData,
    KindView,
};
use crate::scheduler::{in_order_with, PendingChunk, PlaybackScheduler, DEFAULT_BUFFER_TARGET_MS};
use crate::time_provider::{is_sample_ok, millis, millis_of, push_window, sample_ok, TimeProvider};

verus! {

/// The worker asks the server for the time once this many milliseconds have passed.
pub const TIME_SYNC_INTERVAL_MS: u64 = 500;

/// The UTF-8 bytes of a codec name spell `pcm`.
pub open spec fn is_pcm_name(codec: Seq<char>) -> bool {
    encode_utf8(codec) == seq![0x70u8, 0x63u8, 0x6du8]
}

/// The decoder a codec header asks for: PCM when the codec is `pcm` and its header is
/// accepted, silence otherwise.
pub open spec fn selected_decoder(codec: Seq<char>, header: Seq<u8>) -> ActiveDecoder {
    if is_pcm_name(codec) && PCMDecoder.configured(header) is Ok {
        ActiveDecoder::Pcm(PCMDecoder)
    } else {
        ActiveDecoder::Dummy(DummyDecoder)
    }
}

/// Chooses and configures the decoder for a stream from its codec header.
pub fn handle_codec_header(data: &CodecHeaderData) -> (r: ActiveDecoder)
    ensures
        r == selected_decoder(data.codec@, data.payload@),
{
    let name = data.codec.as_str().as_bytes();
    let is_pcm = name.len() == 3 && name[0] == 0x70u8 && name[1] == 0x63u8 && name[2] == 0x6du8;
    assert(is_pcm == (name@ == seq![0x70u8, 0x63u8, 0x6du8])) by {
        if name@.len() == 3 {
            assert(is_pcm ==> name@ =~= seq![0x70u8, 0x63u8, 0x6du8]);
        }
    }
    if is_pcm {
        let d = PCMDecoder;
        match d.set_header(data) {
            Ok(()) => ActiveDecoder::Pcm(d),
            Err(_) => ActiveDecoder::Dummy(DummyDecoder),
        }
    } else {
        ActiveDecoder::Dummy(DummyDecoder)
    }
}

/// Decodes a wire chunk into a chunk for the scheduler, stamped with its server time in
/// milliseconds. Nothing comes out before a decoder is configured, for a timestamp that is
/// negative or past `MAX_SAMPLE_MS`, or for a payload the decoder refuses.
pub fn handle_wire_chunk(decoder: &Option<ActiveDecoder>, data: &WireChunkData) -> (r: Option<
    PendingChunk,
>)
    ensures
        r is Some <==> decoder is Some && sample_ok(data.timestamp)
            && decoder.unwrap().decoded(data.payload@) is Ok,
        r matches Some(c) ==> c.timestamp_ms == millis(data.timestamp) && decoder.unwrap().decoded(
            data.payload@,
        ) == Ok::<Seq<i16>, crate::decoder::DecoderError>(c.samples@),
{
    match decoder {
        None => None,
        Some(d) => {
            if !is_sample_ok(data.timestamp) {
                return None;
            }
            let time = millis_of(data.timestamp);
            match d.decode(data.payload.as_slice()) {
                Ok(samples) => Some(PendingChunk { timestamp_ms: time, samples }),
                Err(_) => None,
            }
        },
    }
}

/// Records the round-trip sample of a time reply; a sample with a negative field, or past
/// `MAX_SAMPLE_MS`, is ignored.
pub fn handle_time(data: &TimeData, time_provider: &mut TimeProvider)
    requires
        old(time_provider).wf(),
    ensures
        final(time_provider).wf(),
        sample_ok(data.latency) ==> final(time_provider)@ == push_window(
            old(time_provider)@,
            millis(data.latency) as u64,
        ),
        !sample_ok(data.latency) ==> final(time_provider)@ == old(time_provider)@,
{
    let t = data.latency;
    if is_sample_ok(t) {
        time_provider.add_time(t);
    }
}

/// Whether the worker owes the server a time request, `elapsed_ms` after the last one.
pub fn time_sync_due(elapsed_ms: u64) -> (r: bool)
    ensures
        r == (elapsed_ms >= TIME_SYNC_INTERVAL_MS),
{
    elapsed_ms >= TIME_SYNC_INTERVAL_MS
}

/// The time request the worker sends, stamped with the local clock reading `now`.
pub fn time_sync_request(now: TimeVal) -> (r: Message)
    ensures
        r@ == (MessageView {
            kind: KindView::Time { latency: TimeVal { sec: 0, usec: 0 } },
            id: 0,
            refers_to: 0,
            received: now,
            sent: now,
        }),
{
    Message {
        type_: MessageType::Time(TimeData { latency: TimeVal { sec: 0, usec: 0 } }),
        id: 0,
        refers_to: 0,
        received: now,
        sent: now,
    }
}

/// What the client holds between messages: the decoder, the clock estimate and the
/// jitter buffer.
pub struct ClientState {
    pub decoder: Option<ActiveDecoder>,
    pub time_provider: TimeProvider,
    pub scheduler: PlaybackScheduler,
}

impl ClientState {
    pub open spec fn wf(&self) -> bool {
        self.time_provider.wf() && self.scheduler.wf()
    }

    /// A client with no decoder, an empty clock window and an empty jitter buffer.
    pub fn new() -> (r: ClientState)
        ensures
            r.wf(),
            r.decoder is None,
            r.time_provider@ == Seq::<u64>::empty(),
            r.scheduler@ == Seq::<PendingChunk>::empty(),
    {
        ClientState {
            decoder: None,
            time_provider: TimeProvider::new(),
            scheduler: PlaybackScheduler::new(),
        }
    }

    /// Acts on one message from the server. Returns true when it configured a new decoder,
    /// whose output format the audio device must then be set up for.
    pub fn handle_message(&mut self, msg: Message) -> (r: bool)
        requires
            old(self).wf(),
        ensures
            final(self).wf(),
            final(self).scheduler.slop() == old(self).scheduler.slop(),
            r == msg.type_ is CodecHeader,
            match msg.type_ {
                MessageType::CodecHeader(d) => {
                    &&& final(self).decoder == Some(selected_decoder(d.codec@, d.payload@))
                    &&& final(self).time_provider@ == old(self).time_provider@
                    &&& final(self).scheduler@ == old(self).scheduler@
                },
                MessageType::WireChunk(d) => {
                    &&& final(self).decoder == old(self).decoder
                    &&& final(self).time_provider@ == old(self).time_provider@
                    &&& if old(self).decoder is Some && sample_ok(d.timestamp) && old(
                        self,
                    ).decoder.unwrap().decoded(d.payload@) is Ok {
                        exists|c: PendingChunk|
                            c.timestamp_ms == millis(d.timestamp) && old(
                                self,
                            ).decoder.unwrap().decoded(d.payload@) == Ok::<
                                Seq<i16>,
                                crate::decoder::DecoderError,
                            >(c.samples@) && final(self).scheduler@ == in_order_with(
                                old(self).scheduler@,
                                c,
                            )
                    } else {
                        final(self).scheduler@ == old(self).scheduler@
                    }
                },
                MessageType::Time(d) => {
                    &&& final(self).decoder == old(self).decoder
                    &&& final(self).scheduler@ == old(self).scheduler@
                    &&& sample_ok(d.latency) ==> final(self).time_provider@ == push_window(
                        old(self).time_provider@,
                        millis(d.latency) as u64,
                    )
                    &&& !sample_ok(d.latency) ==> final(self).time_provider@ == old(
                        self,
                    ).time_provider@
                },
                _ => {
                    &&& final(self).decoder == old(self).decoder
                    &&& final(self).time_provider@ == old(self).time_provider@
                    &&& final(self).scheduler@ == old(self).scheduler@
                },
            },
    {
        match msg.type_ {
            MessageType::CodecHeader(d) => {
                self.decoder = Some(handle_codec_header(&d));
                true
            },
            MessageType::WireChunk(d) => {
                match handle_wire_chunk(&self.decoder, &d) {
                    Some(c) => self.scheduler.push_chunk(c),
                    None => {},
                }
                false
            },
            MessageType::Time(d) => {
                handle_time(&d, &mut self.time_provider);
                false
            },
            _ => false,
        }
    }

    /// One playback step at server time `server_time_ms` with the client's one-second buffer:
    /// the samples to hand to the audio device now.
    pub fn play_tick(&mut self, server_time_ms: u64) -> (run: Vec<i16>)
        requires
            old(self).wf(),
        ensures
            final(self).wf(),
            final(self).decoder == old(self).decoder,
            final(self).time_provider@ == old(self).time_provider@,
            final(self).scheduler.slop() == old(self).scheduler.slop(),
            run@ == crate::scheduler::ready_run(
                old(self).scheduler@,
                server_time_ms,
                DEFAULT_BUFFER_TARGET_MS,
                old(self).scheduler.slop(),
            ),
            final(self).scheduler@ == crate::scheduler::early_chunks(
                old(self).scheduler@,
                server_time_ms,
                DEFAULT_BUFFER_TARGET_MS,
                old(self).scheduler.slop(),
            ),
    {
        self.scheduler.tick(server_time_ms, DEFAULT_BUFFER_TARGET_MS)
    }
}

} // verus!
