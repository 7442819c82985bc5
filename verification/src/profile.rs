use vstd::prelude::*;
use vstd::string::*;
use crate::err::RError;
use crate::sample_type::SampleFormat;

verus! {

/// The sample formats an audio device may report.
#[derive(Clone, Copy, Debug, PartialEq, Eq, Structural)]
pub enum DeviceFormat {
    I8,
    I16,
    I32,
    I64,
    U8,
    U16,
    U32,
    U64,
    F32,
    F64,
}

impl DeviceFormat {
    /// The name the device layer prints for the format: the letter of its
    /// kind in lower case, then its number of bits.
    pub open spec fn spec_name(&self) -> Seq<char> {
        match self {
            DeviceFormat::I8 => "i8"@,
            DeviceFormat::I16 => "i16"@,
            DeviceFormat::I32 => "i32"@,
            DeviceFormat::I64 => "i64"@,
            DeviceFormat::U8 => "u8"@,
            DeviceFormat::U16 => "u16"@,
            DeviceFormat::U32 => "u32"@,
            DeviceFormat::U64 => "u64"@,
            DeviceFormat::F32 => "f32"@,
            DeviceFormat::F64 => "f64"@,
        }
    }

    /// The name the device layer prints for the format.
    pub fn name(&self) -> (text: &'static str)
        ensures
            text@ == self.spec_name(),
    {
        match self {
            DeviceFormat::I8 => "i8",
            DeviceFormat::I16 => "i16",
            DeviceFormat::I32 => "i32",
            DeviceFormat::I64 => "i64",
            DeviceFormat::U8 => "u8",
            DeviceFormat::U16 => "u16",
            DeviceFormat::U32 => "u32",
            DeviceFormat::U64 => "u64",
            DeviceFormat::F32 => "f32",
            DeviceFormat::F64 => "f64",
        }
    }
}

/// The words with which a session refuses a device of `format`.
pub open spec fn unsupported_format_text(format: DeviceFormat) -> Seq<char> {
    "Unsupported sample format "@ + format.spec_name()
}

/// What a device reports as its default stream configuration.
#[derive(Clone, Copy, Debug, PartialEq, Eq, Structural)]
pub struct DeviceConfig {
    pub channels: u16,
    pub sample_rate: u32,
    pub format: DeviceFormat,
}

/// The channel layouts the codec knows.
#[derive(Clone, Copy, Debug, PartialEq, Eq, Structural)]
pub enum Channels {
    Mono,
    Stereo,
}

/// The representation a session works in when the device reports `format`,
/// if there is one.
pub open spec fn supported_format(format: DeviceFormat) -> Option<SampleFormat> {
    match format {
        DeviceFormat::I16 => Some(SampleFormat::I16),
        DeviceFormat::F32 => Some(SampleFormat::F32),
        _ => None,
    }
}

/// Whether a session can be run on what the device reports: one or two
/// channels, in a representation the session works in.
pub open spec fn negotiable(config: DeviceConfig) -> bool {
    &&& 1 <= config.channels <= 2
    &&& supported_format(config.format) is Some
}

/// The number of interleaved samples in ten milliseconds of a stream.
pub open spec fn frame_len_of(channels: nat, sample_rate: nat) -> nat {
    channels * sample_rate / 1000 * 10
}

/// Sample rate, channel count and sample representation of one direction of
/// a session. Fixed once the session exists.
#[derive(Clone, Copy, Debug)]
pub struct StreamProfile {
    sample_rate: u32,
    channels: u8,
    format: SampleFormat,
}

impl StreamProfile {
    #[verifier::type_invariant]
    spec fn mono_or_stereo(self) -> bool {
        1 <= self.channels <= 2
    }

    pub closed spec fn spec_sample_rate(&self) -> u32 {
        self.sample_rate
    }

    pub closed spec fn spec_channels(&self) -> u8 {
        self.channels
    }

    pub closed spec fn spec_format(&self) -> SampleFormat {
        self.format
    }

    /// The number of samples in one frame: ten milliseconds of interleaved
    /// samples.
    pub open spec fn frame_len(&self) -> nat {
        frame_len_of(self.spec_channels() as nat, self.spec_sample_rate() as nat)
    }

    /// A profile of `channels` channels; only mono and stereo exist.
    pub fn new(sample_rate: u32, channels: u8, format: SampleFormat) -> (r: Result<
        StreamProfile,
        RError,
    >)
        ensures
            match r {
                Ok(p) => {
                    &&& 1 <= channels <= 2
                    &&& p.spec_sample_rate() == sample_rate
                    &&& p.spec_channels() == channels
                    &&& p.spec_format() == format
                },
                Err(e) => {
                    &&& !(1 <= channels <= 2)
                    &&& e is DeviceError
                    &&& e.spec_message() == "unsupported channel count"@
                },
            },
    {
        if channels == 1 || channels == 2 {
            Ok(StreamProfile { sample_rate, channels, format })
        } else {
            Err(RError::DeviceError(String::from_str("unsupported channel count")))
        }
    }

    /// The profile a session runs with on a device that reports `config`.
    /// The format is looked at first: a device of another format is refused
    /// with the format's name, whatever its channel count.
    pub fn negotiate(config: &DeviceConfig) -> (r: Result<StreamProfile, RError>)
        ensures
            match r {
                Ok(p) => {
                    &&& negotiable(*config)
                    &&& p.spec_sample_rate() == config.sample_rate
                    &&& p.spec_channels() == config.channels
                    &&& Some(p.spec_format()) == supported_format(config.format)
                },
                Err(e) => {
                    &&& !negotiable(*config)
                    &&& e is DeviceError
                    &&& e.spec_message() == (if supported_format(config.format) is None {
                        unsupported_format_text(config.format)
                    } else {
                        "unsupported channel count"@
                    })
                },
            },
    {
        let format = match config.format {
            DeviceFormat::I16 => SampleFormat::I16,
            DeviceFormat::F32 => SampleFormat::F32,
            other => {
                return Err(
                    RError::DeviceError(
                        String::from_str("Unsupported sample format ").concat(other.name()),
                    ),
                );
            },
        };
        if config.channels < 1 || config.channels > 2 {
            return Err(RError::DeviceError(String::from_str("unsupported channel count")));
        }
        Ok(StreamProfile { sample_rate: config.sample_rate, channels: config.channels as u8, format })
    }

    /// Samples per second in each channel.
    #[verifier::when_used_as_spec(spec_sample_rate)]
    pub fn sample_rate(&self) -> (r: u32)
        ensures
            r == self.spec_sample_rate(),
    {
        self.sample_rate
    }

    /// The number of channels: one or two.
    #[verifier::when_used_as_spec(spec_channels)]
    pub fn channels(&self) -> (r: u8)
        ensures
            r == self.spec_channels(),
            1 <= r <= 2,
    {
        proof {
            use_type_invariant(self);
        }
        self.channels
    }

    /// The representation of the samples.
    #[verifier::when_used_as_spec(spec_format)]
    pub fn format(&self) -> (r: SampleFormat)
        ensures
            r == self.spec_format(),
    {
        self.format
    }

    /// The codec's channel layout for this profile.
    pub fn layout(&self) -> (r: Channels)
        ensures
            r == (if self.spec_channels() == 1 {
                Channels::Mono
            } else {
                Channels::Stereo
            }),
    {
        match self.channels {
            1 => Channels::Mono,
            _ => Channels::Stereo,
        }
    }

    /// The number of samples in one frame.
    pub fn frame_size(&self) -> (n: u64)
        ensures
            n == self.frame_len(),
    {
        assert(self.channels * self.sample_rate <= 255 * 0xffff_ffff) by (nonlinear_arith)
            requires
                0 <= self.channels <= 255,
                0 <= self.sample_rate <= 0xffff_ffff,
        ;
        let product: u64 = self.channels as u64 * self.sample_rate as u64;
        product / 1000 * 10
    }
}

} // verus!
