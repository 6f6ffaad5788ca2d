//! Decisions of the file decoder: which decoder a track gets, at what rate and
//! channel count its samples come, and what a read or decode failure does to
//! the packet loop.

use vstd::prelude::*;
use vstd::string::StringExecFns;

verus! {

/// Rate assumed for a track that does not state its sample rate.
pub const DEFAULT_TRACK_RATE: u32 = 16_000;

/// Opus always decodes at 48 kHz.
pub const OPUS_RATE: u32 = 48_000;

/// Largest Opus frame: 120 ms at 48 kHz, per channel.
pub const OPUS_MAX_FRAME: usize = 5_760;

/// Codec parameters of the first audio track, as the demuxer reports them.
#[derive(Clone, Copy, Debug)]
pub struct TrackParams {
    /// The track holds Opus packets, which are decoded with libopus.
    pub is_opus: bool,
    pub sample_rate: Option<u32>,
    pub channels: Option<usize>,
    /// Encoder delay in samples (Opus pre-skip).
    pub delay: Option<u32>,
}

/// How to decode an Opus track.
#[derive(Clone, Copy, Debug, PartialEq, Eq)]
pub struct OpusPlan {
    /// libopus decodes mono or stereo only; wider tracks are decoded as stereo.
    pub channels: usize,
    /// Samples to drop from the start of the decoded audio.
    pub pre_skip: usize,
    /// Size of the decode buffer: the largest frame for every channel.
    pub buffer_len: usize,
}

/// How to decode a track.
#[derive(Clone, Copy, Debug, PartialEq, Eq)]
pub struct DecodePlan {
    /// Rate of the decoded samples, for resampling to 16 kHz.
    pub src_rate: u32,
    /// Channel count of the track, at least one.
    pub channel_count: usize,
    /// Set for Opus tracks.
    pub opus: Option<OpusPlan>,
}

pub open spec fn spec_channel_count(p: TrackParams) -> usize {
    match p.channels {
        Some(c) => if c >= 1 {
            c
        } else {
            1
        },
        None => 1,
    }
}

/// Plans the decoding of a track.
pub fn plan_decode(p: &TrackParams) -> (r: DecodePlan)
    ensures
        r.src_rate == (match p.sample_rate {
            Some(s) => s,
            None => DEFAULT_TRACK_RATE,
        }),
        r.channel_count == spec_channel_count(*p),
        r.channel_count >= 1,
        !p.is_opus ==> r.opus is None,
        p.is_opus ==> r.opus == Some(
            OpusPlan {
                channels: if spec_channel_count(*p) >= 2 {
                    2
                } else {
                    1
                },
                pre_skip: match p.delay {
                    Some(d) => d as usize,
                    None => 0,
                },
                buffer_len: (OPUS_MAX_FRAME * if spec_channel_count(*p) >= 2 {
                    2int
                } else {
                    1int
                }) as usize,
            },
        ),
{
    let src_rate = match p.sample_rate {
        Some(s) => s,
        None => DEFAULT_TRACK_RATE,
    };
    let channel_count = match p.channels {
        Some(c) => if c >= 1 {
            c
        } else {
            1
        },
        None => 1,
    };
    let opus = if p.is_opus {
        let channels: usize = if channel_count >= 2 {
            2
        } else {
            1
        };
        let pre_skip: usize = match p.delay {
            Some(d) => d as usize,
            None => 0,
        };
        Some(OpusPlan { channels, pre_skip, buffer_len: OPUS_MAX_FRAME * channels })
    } else {
        None
    };
    DecodePlan { src_rate, channel_count, opus }
}

/// Why the demuxer gave no next packet.
#[derive(Debug)]
pub enum ReadFailure {
    /// The stream ended.
    EndOfStream,
    /// The demuxer needs a reset, which this decoder does not do.
    ResetRequired,
    /// Any other failure, with its message.
    Other(String),
}

/// Why a packet could not be decoded.
#[derive(Debug)]
pub enum DecodeFailure {
    /// The packet is malformed.
    Malformed,
    /// The decoder hit an I/O failure.
    Io,
    /// Any other failure, with its message.
    Other(String),
}

/// What the packet loop does next.
#[derive(Debug)]
pub enum PacketFlow {
    /// Go on with the next packet.
    Continue,
    /// Stop reading; the samples decoded so far are the result.
    Stop,
    /// Give up with this error.
    Fail(String),
}

/// A read failure ends the stream quietly when it is the end of the data or a
/// reset request; anything else is an error.
pub fn on_read_failure(f: ReadFailure) -> (r: PacketFlow)
    ensures
        f is EndOfStream || f is ResetRequired ==> r is Stop,
        f matches ReadFailure::Other(e) ==> (r matches PacketFlow::Fail(m) && m@
            == "stream read error: "@ + e@),
{
    match f {
        ReadFailure::EndOfStream => PacketFlow::Stop,
        ReadFailure::ResetRequired => PacketFlow::Stop,
        ReadFailure::Other(e) => {
            let mut m = "stream read error: ".to_owned();
            m.append(e.as_str());
            PacketFlow::Fail(m)
        },
    }
}

/// A malformed packet is skipped, an I/O failure ends the stream, anything else
/// is an error.
pub fn on_decode_failure(f: DecodeFailure) -> (r: PacketFlow)
    ensures
        f is Malformed ==> r is Continue,
        f is Io ==> r is Stop,
        f matches DecodeFailure::Other(e) ==> (r matches PacketFlow::Fail(m) && m@ == "decode error: "@
            + e@),
{
    match f {
        DecodeFailure::Malformed => PacketFlow::Continue,
        DecodeFailure::Io => PacketFlow::Stop,
        DecodeFailure::Other(e) => {
            let mut m = "decode error: ".to_owned();
            m.append(e.as_str());
            PacketFlow::Fail(m)
        },
    }
}

/// Number of decoded samples to drop for the Opus pre-skip: all of it, or all
/// the samples if fewer were decoded.
pub fn pre_skip_drop(pre_skip: usize, decoded: usize) -> (r: usize)
    ensures
        r == (if pre_skip <= decoded {
            pre_skip
        } else {
            decoded
        }),
        r <= decoded,
{
    if pre_skip <= decoded {
        pre_skip
    } else {
        decoded
    }
}

} // verus!
