//! An in-memory mono stream of 16-bit samples, read front to back.

use vstd::prelude::*;

verus! {

/// A buffer of 16-bit samples with a read position.
pub struct PcmSource {
    data: Vec<i16>,
    position: usize,
    sample_rate: u32,
    channels: u16,
}

impl PcmSource {
    /// The samples held.
    pub closed spec fn samples(&self) -> Seq<i16> {
        self.data@
    }

    /// How many samples have been read.
    pub closed spec fn read_count(&self) -> nat {
        self.position as nat
    }

    /// Samples per second.
    pub closed spec fn rate(&self) -> u32 {
        self.sample_rate
    }

    /// Number of interleaved channels.
    pub closed spec fn channel_count(&self) -> u16 {
        self.channels
    }

    /// The read position never passes the end of the samples.
    pub closed spec fn well_formed(&self) -> bool {
        self.position <= self.data@.len()
    }

    /// A mono stream over `data`, read from the start.
    pub fn new(data: Vec<i16>, sample_rate: u32) -> (r: Self)
        ensures
            r.well_formed(),
            r.samples() == data@,
            r.read_count() == 0,
            r.rate() == sample_rate,
            r.channel_count() == 1,
    {
        PcmSource { data, position: 0, sample_rate, channels: 1 }
    }

    /// The next sample, or `None` once all have been read.
    pub fn next(&mut self) -> (r: Option<i16>)
        requires
            old(self).well_formed(),
        ensures
            final(self).well_formed(),
            final(self).samples() == old(self).samples(),
            final(self).rate() == old(self).rate(),
            final(self).channel_count() == old(self).channel_count(),
            old(self).read_count() < old(self).samples().len() ==> (r == Some(
                old(self).samples()[old(self).read_count() as int],
            ) && final(self).read_count() == old(self).read_count() + 1),
            old(self).read_count() >= old(self).samples().len() ==> (r is None
                && final(self).read_count() == old(self).read_count()),
    {
        if self.position < self.data.len() {
            let sample = self.data[self.position];
            self.position = self.position + 1;
            Some(sample)
        } else {
            None
        }
    }

    /// Samples left to read.
    pub fn current_frame_len(&self) -> (r: Option<usize>)
        requires
            self.well_formed(),
        ensures
            r == Some((self.samples().len() - self.read_count()) as usize),
    {
        Some(self.data.len() - self.position)
    }

    pub fn channels(&self) -> (r: u16)
        ensures
            r == self.channel_count(),
    {
        self.channels
    }

    pub fn sample_rate(&self) -> (r: u32)
        ensures
            r == self.rate(),
    {
        self.sample_rate
    }

    /// Length of the whole buffer in whole seconds, rounded down.
    pub fn total_duration(&self) -> (r: Option<u64>)
        requires
            self.rate() > 0,
        ensures
            r == Some((self.samples().len() / (self.rate() as nat)) as u64),
    {
        let samples = self.data.len() as u64;
        Some(samples / self.sample_rate as u64)
    }
}

} // verus!
