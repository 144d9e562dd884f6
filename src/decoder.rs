use vstd::prelude::*;
use crate::bytes::{i16_at, read_u16, read_u32, u16_at, u32_at};
use crate::message::CodecHeaderData;

verus! {

/// Fixed size of the RIFF/WAVE header that configures a PCM stream.
pub const RIFF_HEADER_SIZE: usize = 44;

/// Why a decoder could not be configured or could not decode a chunk.
#[derive(Debug, Clone, Copy, PartialEq, Eq, Structural)]
pub enum DecoderError {
    /// A PCM payload with a byte count that is not a whole number of samples.
    OddLength,
    /// A codec header shorter than `RIFF_HEADER_SIZE`.
    HeaderTooShort,
}

/// The fields of a RIFF/WAVE header, as they lie at its start.
#[derive(Debug, Clone, Copy, PartialEq, Eq, Structural)]
pub struct RiffHeader {
    pub riff_id: u32,
    pub riff_size: u32,
    pub wave_id: u32,
    pub id: u32,
    pub size: u32,
    pub audio_format: i16,
    pub num_channels: i16,
    pub sample_rate: u32,
    pub byte_rate: u32,
    pub block_align: i16,
    pub bits_per_sample: i16,
}

/// The header that the bytes `p` hold.
pub open spec fn riff_header_of(p: Seq<u8>) -> RiffHeader {
    RiffHeader {
        riff_id: u32_at(p, 0),
        riff_size: u32_at(p, 4),
        wave_id: u32_at(p, 8),
        id: u32_at(p, 12),
        size: u32_at(p, 16),
        audio_format: u16_at(p, 20) as i16,
        num_channels: u16_at(p, 22) as i16,
        sample_rate: u32_at(p, 24),
        byte_rate: u32_at(p, 28),
        block_align: u16_at(p, 32) as i16,
        bits_per_sample: u16_at(p, 34) as i16,
    }
}

/// Reads the RIFF/WAVE header at the start of a codec header payload.
pub fn parse_riff_header(payload: &[u8]) -> (r: Result<RiffHeader, DecoderError>)
    ensures
        payload@.len() < RIFF_HEADER_SIZE ==> r == Err::<RiffHeader, DecoderError>(
            DecoderError::HeaderTooShort,
        ),
        payload@.len() >= RIFF_HEADER_SIZE ==> r == Ok::<RiffHeader, DecoderError>(
            riff_header_of(payload@),
        ),
{
    if payload.len() < RIFF_HEADER_SIZE {
        return Err(DecoderError::HeaderTooShort);
    }
    Ok(
        RiffHeader {
            riff_id: read_u32(payload, 0),
            riff_size: read_u32(payload, 4),
            wave_id: read_u32(payload, 8),
            id: read_u32(payload, 12),
            size: read_u32(payload, 16),
            audio_format: #[verifier::truncate] (read_u16(payload, 20) as i16),
            num_channels: #[verifier::truncate] (read_u16(payload, 22) as i16),
            sample_rate: read_u32(payload, 24),
            byte_rate: read_u32(payload, 28),
            block_align: #[verifier::truncate] (read_u16(payload, 32) as i16),
            bits_per_sample: #[verifier::truncate] (read_u16(payload, 34) as i16),
        },
    )
}

/// The little-endian 16-bit samples that `b` holds.
pub open spec fn pcm_samples(b: Seq<u8>) -> Seq<i16> {
    Seq::new(b.len() / 2, |i: int| i16_at(b, 2 * i))
}

/// A PCM payload decodes to its samples when it holds a whole number of them.
pub open spec fn pcm_decode(b: Seq<u8>) -> Result<Seq<i16>, DecoderError> {
    if b.len() % 2 == 1 {
        Err(DecoderError::OddLength)
    } else {
        Ok(pcm_samples(b))
    }
}

/// Turns chunk payloads of one codec into samples.
pub trait Decoder: Sized {
    /// What decoding `chunk` gives.
    spec fn decoded(&self, chunk: Seq<u8>) -> Result<Seq<i16>, DecoderError>;

    /// Whether a codec header payload configures this decoder.
    spec fn configured(&self, header: Seq<u8>) -> Result<(), DecoderError>;

    fn decode(&self, chunk: &[u8]) -> (r: Result<Vec<i16>, DecoderError>)
        ensures
            match r {
                Ok(v) => self.decoded(chunk@) == Ok::<Seq<i16>, DecoderError>(v@),
                Err(e) => self.decoded(chunk@) == Err::<Seq<i16>, DecoderError>(e),
            },
    ;

    fn set_header(&self, header: &CodecHeaderData) -> (r: Result<(), DecoderError>)
        ensures
            r == self.configured(header.payload@),
    ;

    fn new() -> Self;
}

/// The decoder of an unsupported codec: every chunk is silence.
#[derive(Debug, Clone, Copy)]
pub struct DummyDecoder;

impl Decoder for DummyDecoder {
    open spec fn decoded(&self, chunk: Seq<u8>) -> Result<Seq<i16>, DecoderError> {
        Ok(Seq::empty())
    }

    open spec fn configured(&self, header: Seq<u8>) -> Result<(), DecoderError> {
        Ok(())
    }

    fn decode(&self, chunk: &[u8]) -> (r: Result<Vec<i16>, DecoderError>) {
        Ok(Vec::new())
    }

    fn set_header(&self, header: &CodecHeaderData) -> (r: Result<(), DecoderError>) {
        Ok(())
    }

    fn new() -> Self {
        DummyDecoder
    }
}

/// The decoder of raw PCM: interleaved little-endian signed 16-bit samples.
#[derive(Debug, Clone, Copy)]
pub struct PCMDecoder;

impl Decoder for PCMDecoder {
    open spec fn decoded(&self, chunk: Seq<u8>) -> Result<Seq<i16>, DecoderError> {
        pcm_decode(chunk)
    }

    open spec fn configured(&self, header: Seq<u8>) -> Result<(), DecoderError> {
        if header.len() < RIFF_HEADER_SIZE {
            Err(DecoderError::HeaderTooShort)
        } else {
            Ok(())
        }
    }

    fn decode(&self, chunk: &[u8]) -> (r: Result<Vec<i16>, DecoderError>) {
        let len = chunk.len();
        if len % 2 == 1 {
            return Err(DecoderError::OddLength);
        }
        let n = len / 2;
        let mut frames: Vec<i16> = Vec::new();
        let mut i: usize = 0;
        while i < n
            invariant
                n == chunk@.len() / 2,
                len == chunk@.len(),
                i <= n,
                frames@ =~= pcm_samples(chunk@).subrange(0, i as int),
            decreases n - i,
        {
            let sample = #[verifier::truncate] (read_u16(chunk, 2 * i) as i16);
            frames.push(sample);
            i = i + 1;
        }
        assert(pcm_samples(chunk@).subrange(0, n as int) =~= pcm_samples(chunk@));
        Ok(frames)
    }

    fn set_header(&self, header: &CodecHeaderData) -> (r: Result<(), DecoderError>) {
        match parse_riff_header(header.payload.as_slice()) {
            Ok(_) => Ok(()),
            Err(e) => Err(e),
        }
    }

    fn new() -> Self {
        PCMDecoder
    }
}

/// The decoder a stream was configured with.
#[derive(Debug, Clone, Copy)]
pub enum ActiveDecoder {
    Pcm(PCMDecoder),
    Dummy(DummyDecoder),
}

impl Decoder for ActiveDecoder {
    open spec fn decoded(&self, chunk: Seq<u8>) -> Result<Seq<i16>, DecoderError> {
        match self {
            ActiveDecoder::Pcm(d) => d.decoded(chunk),
            ActiveDecoder::Dummy(d) => d.decoded(chunk),
        }
    }

    open spec fn configured(&self, header: Seq<u8>) -> Result<(), DecoderError> {
        match self {
            ActiveDecoder::Pcm(d) => d.configured(header),
            ActiveDecoder::Dummy(d) => d.configured(header),
        }
    }

    fn decode(&self, chunk: &[u8]) -> (r: Result<Vec<i16>, DecoderError>) {
        match self {
            ActiveDecoder::Pcm(d) => d.decode(chunk),
            ActiveDecoder::Dummy(d) => d.decode(chunk),
        }
    }

    fn set_header(&self, header: &CodecHeaderData) -> (r: Result<(), DecoderError>) {
        match self {
            ActiveDecoder::Pcm(d) => d.set_header(header),
            ActiveDecoder::Dummy(d) => d.set_header(header),
        }
    }

    fn new() -> Self {
        ActiveDecoder::Dummy(DummyDecoder)
    }
}

} // verus!
