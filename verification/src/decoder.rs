use vstd::prelude::*;
use vstd::slice::slice_subrange;
use vstd::string::*;
use crate::encoder::pcm_of;
use crate::encoder::plan;
use crate::encoder::Pcm;
use crate::frame::framed;
use crate::frame::lemma_frames_partition;
use crate::err::RError;
use crate::profile::Channels;
use crate::profile::StreamProfile;
use crate::sample_type::batch_from_f32_bits;
use crate::sample_type::batch_from_i16;
use crate::sample_type::uniform;
use crate::sample_type::SampleFormat;
use crate::sample_type::SampleType;

verus! {

/// The length of the buffer the codec decodes one packet into.
pub const MAX_FRAME_SIZE: usize = 6 * 960;

/// The number of channels of a layout.
pub open spec fn channel_count(channel: Channels) -> nat {
    match channel {
        Channels::Mono => 1,
        Channels::Stereo => 2,
    }
}

/// What the codec's decoder is called with for one packet.
#[derive(Debug)]
pub struct DecodeCall {
    /// The compressed packet.
    pub packet: Vec<u8>,
    /// Which entry point to call: the one that writes this representation.
    pub format: SampleFormat,
    /// The length of the output buffer to decode into.
    pub capacity: usize,
    /// Whether the call stands in for a packet known to be missing.
    pub fec: bool,
}

/// The buffer one decode call wrote into: raw integers from the codec's
/// integer entry point, raw float bit patterns from its float entry point.
#[derive(Debug)]
pub enum CodecOutput {
    Int16(Vec<i16>),
    Float32(Vec<u32>),
}

impl View for CodecOutput {
    type V = Pcm;

    open spec fn view(&self) -> Pcm {
        match self {
            CodecOutput::Int16(pcm) => Pcm::Int16(pcm@),
            CodecOutput::Float32(pcm) => Pcm::Float32(pcm@),
        }
    }
}

/// Whether what the codec returned is one frame of `frame_len` samples, of
/// the representation `format`, in front of `buffer`.
pub open spec fn is_one_frame(
    channel: Channels,
    frame_len: nat,
    format: SampleFormat,
    buffer: Pcm,
    reply: Result<usize, String>,
) -> bool {
    &&& reply matches Ok(per_channel)
    &&& buffer.format() == format
    &&& per_channel * channel_count(channel) == frame_len
    &&& frame_len <= buffer.len()
}

/// The words of the error with which `Decoder::decode` refuses a reply.
pub open spec fn decode_refusal(format: SampleFormat, buffer: Pcm, reply: Result<usize, String>) -> Seq<
    char,
> {
    match reply {
        Err(text) => text@,
        Ok(_) => if buffer.format() != format {
            "sample representation does not match the stream"@
        } else {
            "decoded length is not one frame"@
        },
    }
}

/// One frame through the codec and back keeps its shape. A frame of the
/// stream's representation goes to the codec as one input of that
/// representation and length; and whatever the codec answers and later
/// decodes, a buffer that `Decoder::decode` accepts yields a frame of the
/// same length and representation as the one that went in.
pub proof fn lemma_round_trip_keeps_shape(
    frame: Seq<SampleType>,
    frame_len: nat,
    format: SampleFormat,
    channel: Channels,
    buffer: Pcm,
    reply: Result<usize, String>,
)
    requires
        frame_len > 0,
        frame.len() == frame_len,
        uniform(frame, format),
        is_one_frame(channel, frame_len, format, buffer, reply),
    ensures
        plan(frame, frame_len, format) == seq![pcm_of(frame, format)],
        pcm_of(frame, format).format() == format,
        pcm_of(frame, format).len() == frame_len,
        buffer.samples().take(frame_len as int).len() == frame.len(),
        uniform(buffer.samples().take(frame_len as int), format),
{
    lemma_frames_partition(frame, frame_len);
    vstd::arithmetic::div_mod::lemma_div_basics(frame_len as int);
    let cut = framed(frame, frame_len);
    assert(cut.len() == 1);
    assert(0 * frame_len == 0) by (nonlinear_arith);
    assert(cut[0] == frame);
    assert(plan(frame, frame_len, format) == seq![pcm_of(frame, format)]);
}

/// The settings a codec decoder is made with, and the entry to decoding.
#[derive(Clone, Copy, Debug)]
pub struct Decoder {
    pub sample_rate: u32,
    pub channel: Channels,
}

impl Decoder {
    /// The settings for a codec decoder at `sample_rate`, for the layout
    /// `channel`.
    pub fn new(sample_rate: u32, channel: Channels) -> (d: Decoder)
        ensures
            d.sample_rate == sample_rate,
            d.channel == channel,
    {
        Decoder { sample_rate, channel }
    }

    /// The codec call that decodes `packet` for a stream of `play_config`.
    pub fn request(&self, play_config: &StreamProfile, packet: Vec<u8>, expect_loss: bool) -> (call:
        DecodeCall)
        ensures
            call.packet == packet,
            call.format == play_config.spec_format(),
            call.capacity == MAX_FRAME_SIZE,
            call.fec == expect_loss,
    {
        DecodeCall {
            packet,
            format: play_config.format(),
            capacity: MAX_FRAME_SIZE,
            fec: expect_loss,
        }
    }

    /// The frame that the codec decoded into `buffer`. `reply` is what the
    /// codec returned: the number of samples it wrote for each channel, or
    /// its words on why it failed. The samples written must be exactly one
    /// frame at `play_config` and of its representation; the frame is the
    /// front of `buffer`, each sample tagged with that representation.
    pub fn decode(
        &self,
        play_config: &StreamProfile,
        buffer: &CodecOutput,
        reply: Result<usize, String>,
    ) -> (r: Result<Vec<SampleType>, RError>)
        ensures
            match r {
                Ok(frame) => {
                    &&& is_one_frame(
                        self.channel,
                        play_config.frame_len(),
                        play_config.spec_format(),
                        buffer@,
                        reply,
                    )
                    &&& frame@ == buffer@.samples().take(play_config.frame_len() as int)
                    &&& frame@.len() == play_config.frame_len()
                    &&& uniform(frame@, play_config.spec_format())
                },
                Err(e) => {
                    &&& !is_one_frame(
                        self.channel,
                        play_config.frame_len(),
                        play_config.spec_format(),
                        buffer@,
                        reply,
                    )
                    &&& e.spec_message() == decode_refusal(
                        play_config.spec_format(),
                        buffer@,
                        reply,
                    )
                    &&& if reply is Ok && buffer@.format() != play_config.spec_format() {
                        e is CofigError
                    } else {
                        e is CodecError
                    }
                },
            },
    {
        let per_channel: usize = match reply {
            Err(text) => {
                return Err(RError::CodecError(text));
            },
            Ok(per_channel) => per_channel,
        };
        let written: SampleFormat = match buffer {
            CodecOutput::Int16(_) => SampleFormat::I16,
            CodecOutput::Float32(_) => SampleFormat::F32,
        };
        if written != play_config.format() {
            return Err(
                RError::CofigError(
                    String::from_str("sample representation does not match the stream"),
                ),
            );
        }
        let held: usize = match buffer {
            CodecOutput::Int16(pcm) => pcm.len(),
            CodecOutput::Float32(pcm) => pcm.len(),
        };
        let count: u128 = match self.channel {
            Channels::Mono => 1,
            Channels::Stereo => 2,
        };
        let total: u128 = per_channel as u128 * count;
        if total != play_config.frame_size() as u128 || total > held as u128 {
            return Err(RError::CodecError(String::from_str("decoded length is not one frame")));
        }
        let frame: Vec<SampleType> = match buffer {
            CodecOutput::Int16(pcm) => batch_from_i16(
                slice_subrange(pcm.as_slice(), 0, total as usize),
            ),
            CodecOutput::Float32(pcm) => batch_from_f32_bits(
                slice_subrange(pcm.as_slice(), 0, total as usize),
            ),
        };
        assert(frame@ == buffer@.samples().take(play_config.frame_len() as int));
        Ok(frame)
    }
}

} // verus!
