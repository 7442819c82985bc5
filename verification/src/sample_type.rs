use vstd::prelude::*;

verus! {

/// How the samples of one stream are represented.
#[derive(Clone, Copy, Debug, PartialEq, Eq, Structural)]
pub enum SampleFormat {
    /// Signed 16-bit integers.
    I16,
    /// 32-bit floats.
    F32,
}

/// One audio sample: a signed 16-bit integer, or a 32-bit float carried as
/// its IEEE-754 bit pattern so that samples compare and store exactly.
#[derive(Clone, Copy, Debug, PartialEq, Eq, Structural)]
pub enum SampleType {
    I16(i16),
    F32(u32),
}

impl SampleType {
    /// The representation this sample is tagged with.
    pub open spec fn spec_format(self) -> SampleFormat {
        match self {
            SampleType::I16(_) => SampleFormat::I16,
            SampleType::F32(_) => SampleFormat::F32,
        }
    }

    /// The representation this sample is tagged with.
    #[verifier::when_used_as_spec(spec_format)]
    pub fn format(self) -> (f: SampleFormat)
        ensures
            f == self.spec_format(),
    {
        match self {
            SampleType::I16(_) => SampleFormat::I16,
            SampleType::F32(_) => SampleFormat::F32,
        }
    }

    /// A float sample from its bit pattern.
    pub fn from_f32_bits(bits: u32) -> (s: SampleType)
        ensures
            s == SampleType::F32(bits),
    {
        SampleType::F32(bits)
    }

    /// The integer inside an integer sample. Asking a float sample for an
    /// integer is a programming error, so the caller must know the tag.
    pub fn to_i16(self) -> (v: i16)
        requires
            self is I16,
        ensures
            self == SampleType::I16(v),
    {
        match self {
            SampleType::I16(s) => s,
            SampleType::F32(_) => vstd::pervasive::unreached(),
        }
    }

    /// The bit pattern inside a float sample. Asking an integer sample for a
    /// float is a programming error, so the caller must know the tag.
    pub fn to_f32_bits(self) -> (bits: u32)
        requires
            self is F32,
        ensures
            self == SampleType::F32(bits),
    {
        match self {
            SampleType::I16(_) => vstd::pervasive::unreached(),
            SampleType::F32(s) => s,
        }
    }
}

impl From<i16> for SampleType {
    fn from(s: i16) -> (r: SampleType) {
        SampleType::I16(s)
    }
}

impl vstd::std_specs::convert::FromSpecImpl<i16> for SampleType {
    open spec fn obeys_from_spec() -> bool {
        true
    }

    open spec fn from_spec(s: i16) -> SampleType {
        SampleType::I16(s)
    }
}

/// Every sample of `s` is tagged with `f`.
pub open spec fn uniform(s: Seq<SampleType>, f: SampleFormat) -> bool {
    forall|i: int| 0 <= i < s.len() ==> (#[trigger] s[i]).spec_format() == f
}

/// A run of raw integers, each tagged as an integer sample.
pub open spec fn tagged_i16(s: Seq<i16>) -> Seq<SampleType> {
    Seq::new(s.len(), |i: int| SampleType::I16(s[i]))
}

/// A run of raw float bit patterns, each tagged as a float sample.
pub open spec fn tagged_f32_bits(s: Seq<u32>) -> Seq<SampleType> {
    Seq::new(s.len(), |i: int| SampleType::F32(s[i]))
}

/// The integers that a run of integer samples holds.
pub open spec fn i16_values(s: Seq<SampleType>) -> Seq<i16> {
    Seq::new(s.len(), |i: int| s[i]->I16_0)
}

/// The bit patterns that a run of float samples holds.
pub open spec fn f32_bit_values(s: Seq<SampleType>) -> Seq<u32> {
    Seq::new(s.len(), |i: int| s[i]->F32_0)
}

/// Whether every sample of `samples` carries the tag `f`.
pub fn is_uniform(samples: &[SampleType], f: SampleFormat) -> (r: bool)
    ensures
        r == uniform(samples@, f),
{
    let mut i: usize = 0;
    while i < samples.len()
        invariant
            i <= samples.len(),
            uniform(samples@.take(i as int), f),
        decreases samples.len() - i,
    {
        if samples[i].format() != f {
            return false;
        }
        i += 1;
    }
    assert(samples@.take(i as int) == samples@);
    true
}

/// Tags a batch of raw integers, as an input device delivers them.
pub fn batch_from_i16(data: &[i16]) -> (batch: Vec<SampleType>)
    ensures
        batch@ == tagged_i16(data@),
{
    let mut batch: Vec<SampleType> = Vec::with_capacity(data.len());
    let mut i: usize = 0;
    while i < data.len()
        invariant
            i <= data.len(),
            batch@.len() == i,
            forall|k: int| 0 <= k < i ==> batch@[k] == SampleType::I16(data@[k]),
        decreases data.len() - i,
    {
        batch.push(SampleType::from(data[i]));
        i += 1;
    }
    batch
}

/// Tags a batch of raw float bit patterns, as an input device delivers them.
pub fn batch_from_f32_bits(data: &[u32]) -> (batch: Vec<SampleType>)
    ensures
        batch@ == tagged_f32_bits(data@),
{
    let mut batch: Vec<SampleType> = Vec::with_capacity(data.len());
    let mut i: usize = 0;
    while i < data.len()
        invariant
            i <= data.len(),
            batch@.len() == i,
            forall|k: int| 0 <= k < i ==> batch@[k] == SampleType::F32(data@[k]),
        decreases data.len() - i,
    {
        batch.push(SampleType::from_f32_bits(data[i]));
        i += 1;
    }
    batch
}

} // verus!
