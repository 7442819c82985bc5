use vstd::prelude::*;
use vstd::string::*;
use crate::err::RError;
use crate::frame::frame;
use crate::frame::framed;
use crate::frame::views;
use crate::profile::Channels;
use crate::profile::StreamProfile;
use crate::sample_type::f32_bit_values;
use crate::sample_type::i16_values;
use crate::sample_type::is_uniform;
use crate::sample_type::tagged_f32_bits;
use crate::sample_type::tagged_i16;
use crate::sample_type::uniform;
use crate::sample_type::SampleFormat;
use crate::sample_type::SampleType;

verus! {

/// The most bytes the codec may write for one frame.
pub const MAX_OUT_SIZE: usize = 3 * 1276;

/// What the codec is tuned for.
#[derive(Clone, Copy, Debug, PartialEq, Eq, Structural)]
pub enum Application {
    Voip,
    Audio,
    LowDelay,
}

/// One frame as the codec takes it: raw integers for its integer entry
/// point, raw float bit patterns for its float entry point.
#[derive(Debug)]
pub enum CodecInput {
    Int16(Vec<i16>),
    Float32(Vec<u32>),
}

/// Raw samples of one representation, as they pass to and from the codec.
pub enum Pcm {
    Int16(Seq<i16>),
    Float32(Seq<u32>),
}

impl Pcm {
    /// The representation of the raw samples.
    pub open spec fn format(self) -> SampleFormat {
        match self {
            Pcm::Int16(_) => SampleFormat::I16,
            Pcm::Float32(_) => SampleFormat::F32,
        }
    }

    /// The number of raw samples.
    pub open spec fn len(self) -> nat {
        match self {
            Pcm::Int16(pcm) => pcm.len(),
            Pcm::Float32(pcm) => pcm.len(),
        }
    }

    /// The raw samples, each tagged with their representation.
    pub open spec fn samples(self) -> Seq<SampleType> {
        match self {
            Pcm::Int16(pcm) => tagged_i16(pcm),
            Pcm::Float32(pcm) => tagged_f32_bits(pcm),
        }
    }
}

impl View for CodecInput {
    type V = Pcm;

    open spec fn view(&self) -> Pcm {
        match self {
            CodecInput::Int16(pcm) => Pcm::Int16(pcm@),
            CodecInput::Float32(pcm) => Pcm::Float32(pcm@),
        }
    }
}

/// What a list of codec inputs holds, one entry for each.
pub open spec fn input_views(inputs: Seq<CodecInput>) -> Seq<Pcm> {
    Seq::new(inputs.len(), |i: int| inputs[i]@)
}

/// The codec input for a frame whose samples are all of `format`.
pub open spec fn pcm_of(frame: Seq<SampleType>, format: SampleFormat) -> Pcm {
    match format {
        SampleFormat::I16 => Pcm::Int16(i16_values(frame)),
        SampleFormat::F32 => Pcm::Float32(f32_bit_values(frame)),
    }
}

/// The codec inputs for a run of samples of `format`: one for each whole
/// frame, in order.
pub open spec fn plan(data: Seq<SampleType>, frame_len: nat, format: SampleFormat) -> Seq<Pcm> {
    Seq::new(framed(data, frame_len).len(), |i: int| pcm_of(framed(data, frame_len)[i], format))
}

/// Unwraps a frame for the codec entry point of `format`.
fn unwrap_frame(samples: &[SampleType], format: SampleFormat) -> (input: CodecInput)
    requires
        uniform(samples@, format),
    ensures
        input@ == pcm_of(samples@, format),
{
    match format {
        SampleFormat::I16 => {
            let mut pcm: Vec<i16> = Vec::with_capacity(samples.len());
            let mut i: usize = 0;
            while i < samples.len()
                invariant
                    i <= samples.len(),
                    uniform(samples@, SampleFormat::I16),
                    pcm@ == i16_values(samples@.take(i as int)),
                decreases samples.len() - i,
            {
                pcm.push(samples[i].to_i16());
                i += 1;
                assert(pcm@ == i16_values(samples@.take(i as int)));
            }
            assert(samples@.take(i as int) == samples@);
            CodecInput::Int16(pcm)
        },
        SampleFormat::F32 => {
            let mut pcm: Vec<u32> = Vec::with_capacity(samples.len());
            let mut i: usize = 0;
            while i < samples.len()
                invariant
                    i <= samples.len(),
                    uniform(samples@, SampleFormat::F32),
                    pcm@ == f32_bit_values(samples@.take(i as int)),
                decreases samples.len() - i,
            {
                pcm.push(samples[i].to_f32_bits());
                i += 1;
                assert(pcm@ == f32_bit_values(samples@.take(i as int)));
            }
            assert(samples@.take(i as int) == samples@);
            CodecInput::Float32(pcm)
        },
    }
}

/// The settings a codec encoder is made with, and the entry to encoding.
#[derive(Clone, Copy, Debug)]
pub struct Encoder {
    pub sample_rate: u32,
    pub channel: Channels,
    pub mode: Application,
}

impl Encoder {
    /// The settings for a codec encoder at `sample_rate`, for the layout
    /// `channel`, tuned for `mode`.
    pub fn new(sample_rate: u32, channel: Channels, mode: Application) -> (e: Encoder)
        ensures
            e.sample_rate == sample_rate,
            e.channel == channel,
            e.mode == mode,
    {
        Encoder { sample_rate, channel, mode }
    }

    /// One frame, ready for the codec entry point of its representation.
    /// The frame must be exactly one frame long at `record_config` and hold
    /// only samples of its representation.
    pub fn frame_input(&self, record_config: &StreamProfile, frame: &[SampleType]) -> (r: Result<
        CodecInput,
        RError,
    >)
        ensures
            match r {
                Ok(input) => {
                    &&& frame@.len() == record_config.frame_len()
                    &&& uniform(frame@, record_config.spec_format())
                    &&& input@ == pcm_of(frame@, record_config.spec_format())
                },
                Err(e) => {
                    &&& e is CofigError
                    &&& if frame@.len() != record_config.frame_len() {
                        e.spec_message() == "frame length does not match the stream"@
                    } else {
                        &&& !uniform(frame@, record_config.spec_format())
                        &&& e.spec_message() == "sample representation does not match the stream"@
                    }
                },
            },
    {
        if frame.len() as u64 != record_config.frame_size() {
            return Err(
                RError::CofigError(String::from_str("frame length does not match the stream")),
            );
        }
        if !is_uniform(frame, record_config.format()) {
            return Err(
                RError::CofigError(
                    String::from_str("sample representation does not match the stream"),
                ),
            );
        }
        Ok(unwrap_frame(frame, record_config.format()))
    }

    /// Cuts `data` into frames at `record_config` and readies each for the
    /// codec. Every sample of `data` must be of the stream's representation,
    /// also those behind the last whole frame.
    pub fn encode(&self, record_config: &StreamProfile, data: Vec<SampleType>) -> (r: Result<
        EncodeJob,
        RError,
    >)
        ensures
            match r {
                Ok(job) => {
                    &&& uniform(data@, record_config.spec_format())
                    &&& job.inputs() == plan(
                        data@,
                        record_config.frame_len(),
                        record_config.spec_format(),
                    )
                    &&& job.packets() == Seq::<Seq<u8>>::empty()
                    &&& !job.failed()
                },
                Err(e) => {
                    &&& !uniform(data@, record_config.spec_format())
                    &&& e is CofigError
                    &&& e.spec_message() == "sample representation does not match the stream"@
                },
            },
    {
        let format = record_config.format();
        if !is_uniform(data.as_slice(), format) {
            return Err(
                RError::CofigError(
                    String::from_str("sample representation does not match the stream"),
                ),
            );
        }
        let frames: Vec<Vec<SampleType>> = frame(data.as_slice(), record_config);
        let ghost cut = framed(data@, record_config.frame_len());
        let mut inputs: Vec<CodecInput> = Vec::with_capacity(frames.len());
        let mut i: usize = 0;
        while i < frames.len()
            invariant
                i <= frames.len(),
                views(frames@) == cut,
                cut == framed(data@, record_config.frame_len()),
                uniform(data@, format),
                inputs@.len() == i,
                forall|k: int| 0 <= k < i ==> (#[trigger] inputs@[k])@ == pcm_of(cut[k], format),
            decreases frames.len() - i,
        {
            proof {
                lemma_frame_uniform(data@, record_config.frame_len(), format, i as int);
                assert(frames@[i as int]@ == views(frames@)[i as int]);
            }
            let input = unwrap_frame(frames[i].as_slice(), format);
            inputs.push(input);
            i += 1;
        }
        assert(input_views(inputs@) == plan(data@, record_config.frame_len(), format));
        Ok(EncodeJob { inputs, packets: Vec::new(), failed: false })
    }
}

/// A frame cut out of samples of one representation holds only samples of
/// that representation.
pub proof fn lemma_frame_uniform(
    data: Seq<SampleType>,
    frame_len: nat,
    format: SampleFormat,
    i: int,
)
    requires
        uniform(data, format),
        0 <= i < framed(data, frame_len).len(),
    ensures
        uniform(framed(data, frame_len)[i], format),
{
    crate::frame::lemma_frame_bounds(data.len(), frame_len, i);
    let piece = framed(data, frame_len)[i];
    assert forall|k: int| 0 <= k < piece.len() implies (#[trigger] piece[k]).spec_format()
        == format by {
        assert(piece[k] == data[i * frame_len + k]);
    }
}

/// The frames of one `Encoder::encode` on their way through the codec. The
/// caller takes `next_input`, runs the codec on it and hands what came back
/// to `accept`, until no input is left; `finish` then gives the packets.
#[derive(Debug)]
pub struct EncodeJob {
    inputs: Vec<CodecInput>,
    packets: Vec<Vec<u8>>,
    failed: bool,
}

impl EncodeJob {
    #[verifier::type_invariant]
    spec fn in_step(self) -> bool {
        &&& self.packets@.len() <= self.inputs@.len()
        &&& forall|i: int|
            0 <= i < self.packets@.len() ==> (#[trigger] self.packets@[i])@.len() <= MAX_OUT_SIZE
    }

    /// All codec inputs of the job, in frame order.
    pub closed spec fn inputs(&self) -> Seq<Pcm> {
        input_views(self.inputs@)
    }

    /// The packets taken so far: packet `i` is the codec's answer to input `i`.
    pub closed spec fn packets(&self) -> Seq<Seq<u8>> {
        views(self.packets@)
    }

    /// Whether the codec has failed on a frame of this job.
    pub closed spec fn failed(&self) -> bool {
        self.failed
    }

    /// Whether a frame still waits for the codec.
    pub open spec fn pending(&self) -> bool {
        !self.failed() && self.packets().len() < self.inputs().len()
    }

    /// The frame the codec is to take next, if the job has one left.
    pub fn next_input(&self) -> (r: Option<&CodecInput>)
        ensures
            self.packets().len() <= self.inputs().len(),
            match r {
                Some(input) => self.pending() && input@ == self.inputs()[self.packets().len() as int],
                None => !self.pending(),
            },
    {
        proof {
            use_type_invariant(self);
        }
        if self.failed || self.packets.len() >= self.inputs.len() {
            None
        } else {
            Some(&self.inputs[self.packets.len()])
        }
    }

    /// Takes what the codec returned for the frame of `next_input`: the
    /// packet, or the codec's words on why it failed. A failure ends the
    /// job. So does a packet longer than `MAX_OUT_SIZE`, or one that
    /// answers no frame.
    pub fn accept(&mut self, reply: Result<Vec<u8>, String>) -> (r: Result<(), RError>)
        ensures
            final(self).inputs() == old(self).inputs(),
            match r {
                Ok(()) => {
                    &&& old(self).pending()
                    &&& reply matches Ok(packet)
                    &&& packet@.len() <= MAX_OUT_SIZE
                    &&& final(self).packets() == old(self).packets().push(packet@)
                    &&& !final(self).failed()
                },
                Err(e) => {
                    &&& final(self).failed()
                    &&& final(self).packets() == old(self).packets()
                    &&& e is CodecError
                    &&& e.spec_message() == accept_refusal(old(self).pending(), reply)
                    &&& (!old(self).pending() || reply is Err || reply->Ok_0@.len() > MAX_OUT_SIZE)
                },
            },
    {
        proof {
            use_type_invariant(&*self);
        }
        if self.failed || self.packets.len() >= self.inputs.len() {
            self.failed = true;
            return Err(RError::CodecError(String::from_str("no frame awaits a packet")));
        }
        match reply {
            Err(text) => {
                self.failed = true;
                Err(RError::CodecError(text))
            },
            Ok(packet) => {
                if packet.len() > MAX_OUT_SIZE {
                    self.failed = true;
                    return Err(
                        RError::CodecError(String::from_str("packet exceeds the size limit")),
                    );
                }
                let mut packets: Vec<Vec<u8>> = Vec::new();
                core::mem::swap(&mut packets, &mut self.packets);
                packets.push(packet);
                core::mem::swap(&mut packets, &mut self.packets);
                assert(views(self.packets@) == views(old(self).packets@).push(packet@));
                Ok(())
            },
        }
    }

    /// The packets of the job, one for each frame and in frame order, once
    /// every frame has been through the codec.
    pub fn finish(self) -> (r: Result<Vec<Vec<u8>>, RError>)
        ensures
            match r {
                Ok(packets) => {
                    &&& !self.failed()
                    &&& views(packets@) == self.packets()
                    &&& packets@.len() == self.inputs().len()
                    &&& forall|i: int|
                        0 <= i < packets@.len() ==> (#[trigger] packets@[i])@.len() <= MAX_OUT_SIZE
                },
                Err(e) => {
                    &&& self.failed() || self.packets().len() < self.inputs().len()
                    &&& e is CodecError
                    &&& e.spec_message() == "encoding did not complete"@
                },
            },
    {
        proof {
            use_type_invariant(&self);
        }
        if self.failed || self.packets.len() < self.inputs.len() {
            Err(RError::CodecError(String::from_str("encoding did not complete")))
        } else {
            Ok(self.packets)
        }
    }
}

/// The words of the error with which `EncodeJob::accept` refuses a reply.
pub open spec fn accept_refusal(pending: bool, reply: Result<Vec<u8>, String>) -> Seq<char> {
    if !pending {
        "no frame awaits a packet"@
    } else {
        match reply {
            Err(text) => text@,
            Ok(_) => "packet exceeds the size limit"@,
        }
    }
}

} // verus!
