use vstd::prelude::*;
use crate::sample_type::SampleType;

verus! {

/// The samples captured and not yet collected, in the order they arrived.
#[derive(Debug)]
pub struct SampleBuffer {
    samples: Vec<SampleType>,
}

impl View for SampleBuffer {
    type V = Seq<SampleType>;

    closed spec fn view(&self) -> Seq<SampleType> {
        self.samples@
    }
}

impl SampleBuffer {
    /// An empty buffer.
    pub fn new() -> (b: SampleBuffer)
        ensures
            b@ == Seq::<SampleType>::empty(),
    {
        SampleBuffer { samples: Vec::new() }
    }

    /// The number of samples that wait to be collected.
    pub fn len(&self) -> (n: usize)
        ensures
            n == self@.len(),
    {
        self.samples.len()
    }

    /// Puts a whole batch behind what the buffer holds.
    pub fn append(&mut self, batch: Vec<SampleType>)
        ensures
            final(self)@ == old(self)@ + batch@,
    {
        let mut batch = batch;
        self.samples.append(&mut batch);
    }

    /// Takes everything the buffer holds and leaves it empty, in one step:
    /// no sample is handed out twice.
    pub fn collect(&mut self) -> (taken: Vec<SampleType>)
        ensures
            taken@ == old(self)@,
            final(self)@ == Seq::<SampleType>::empty(),
    {
        let mut taken: Vec<SampleType> = Vec::new();
        core::mem::swap(&mut taken, &mut self.samples);
        taken
    }
}

} // verus!
