//! A buffer of samples treated as a source: the simplest runtime-fixed
//! source, playing a vector of samples once from front to back.

use vstd::prelude::*;

use crate::format::{ChannelCount, SampleRate};
use crate::sample::Sample;
use crate::source::FixedSource;

verus! {

/// Nanoseconds per second; durations are carried in nanoseconds.
pub const NANOS_PER_SEC: u64 = 1_000_000_000;

pub struct SamplesBuffer {
    data: Vec<Sample>,
    pos: usize,
    channels: ChannelCount,
    sample_rate: SampleRate,
    duration_ns: u64,
}

impl SamplesBuffer {
    /// Builds a buffer source over `data`, interleaved by channel.
    ///
    /// The duration computation caps the buffer length; a longer buffer
    /// would overflow the nanosecond arithmetic.
    pub fn new(channels: ChannelCount, sample_rate: SampleRate, data: Vec<Sample>) -> (r:
        SamplesBuffer)
        requires
            data@.len() * NANOS_PER_SEC <= u64::MAX,
        ensures
            r.inv(),
            r.remaining() == data@.map_values(|s: Sample| s.bits),
            r.spec_channels() == channels.spec_get(),
            r.spec_rate() == sample_rate.spec_get(),
            r.spec_duration() == Some(
                (data@.len() * NANOS_PER_SEC / sample_rate.spec_get() as int
                    / channels.spec_get() as int) as u64,
            ),
    {
        let len64: u64 = data.len() as u64;
        let duration_ns: u64 = len64 * NANOS_PER_SEC / sample_rate.get() as u64
            / channels.get() as u64;
        let r = SamplesBuffer { data, pos: 0, channels, sample_rate, duration_ns };
        proof {
            assert(r.remaining() =~= r.data@.map_values(|s: Sample| s.bits));
        }
        r
    }
}

impl FixedSource for SamplesBuffer {
    closed spec fn inv(&self) -> bool {
        self.pos <= self.data.len()
    }

    closed spec fn spec_channels(&self) -> u16 {
        self.channels.spec_get()
    }

    closed spec fn spec_rate(&self) -> u32 {
        self.sample_rate.spec_get()
    }

    closed spec fn remaining(&self) -> Seq<u32> {
        self.data@.map_values(|s: Sample| s.bits).skip(self.pos as int)
    }

    closed spec fn spec_duration(&self) -> Option<u64> {
        Some(self.duration_ns)
    }

    fn channels(&self) -> (c: ChannelCount)
        ensures
            c.spec_get() == self.spec_channels(),
    {
        self.channels
    }

    fn sample_rate(&self) -> (r: SampleRate)
        ensures
            r.spec_get() == self.spec_rate(),
    {
        self.sample_rate
    }

    fn total_duration(&self) -> (d: Option<u64>)
        ensures
            d == self.spec_duration(),
    {
        Some(self.duration_ns)
    }

    fn next(&mut self) -> (s: Option<Sample>) {
        if self.pos < self.data.len() {
            let s = self.data[self.pos];
            self.pos = self.pos + 1;
            proof {
                assert(self.remaining() =~= old(self).remaining().skip(1));
            }
            Some(s)
        } else {
            None
        }
    }
}

} // verus!
