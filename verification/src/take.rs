//! Cutting a source short: after a fixed number of samples, or after a
//! fixed playing time, the stream ends.

use vstd::prelude::*;

use crate::buffer::NANOS_PER_SEC;
use crate::format::{ChannelCount, SampleRate};
use crate::sample::Sample;
use crate::source::FixedSource;

verus! {

/// Passes at most `left` more samples through, then ends the stream.
pub struct TakeSamples<S: FixedSource> {
    inner: S,
    left: u64,
}

impl<S: FixedSource> TakeSamples<S> {
    pub fn new(inner: S, count: u64) -> (r: TakeSamples<S>)
        requires
            inner.inv(),
        ensures
            r.inv(),
            r.spec_left() == count,
            r.spec_channels() == inner.spec_channels(),
            r.spec_rate() == inner.spec_rate(),
            r.spec_duration() == inner.spec_duration(),
            r.remaining() == (if count <= inner.remaining().len() {
                inner.remaining().take(count as int)
            } else {
                inner.remaining()
            }),
    {
        TakeSamples { inner, left: count }
    }

    /// Samples this wrapper will still let through, at most.
    pub closed spec fn spec_left(&self) -> u64 {
        self.left
    }
}

impl<S: FixedSource> FixedSource for TakeSamples<S> {
    closed spec fn inv(&self) -> bool {
        self.inner.inv()
    }

    closed spec fn spec_channels(&self) -> u16 {
        self.inner.spec_channels()
    }

    closed spec fn spec_rate(&self) -> u32 {
        self.inner.spec_rate()
    }

    closed spec fn remaining(&self) -> Seq<u32> {
        if self.left <= self.inner.remaining().len() {
            self.inner.remaining().take(self.left as int)
        } else {
            self.inner.remaining()
        }
    }

    closed spec fn spec_duration(&self) -> Option<u64> {
        self.inner.spec_duration()
    }

    fn channels(&self) -> (c: ChannelCount)
        ensures
            c.spec_get() == self.spec_channels(),
    {
        self.inner.channels()
    }

    fn sample_rate(&self) -> (r: SampleRate)
        ensures
            r.spec_get() == self.spec_rate(),
    {
        self.inner.sample_rate()
    }

    fn total_duration(&self) -> (d: Option<u64>)
        ensures
            d == self.spec_duration(),
    {
        self.inner.total_duration()
    }

    fn next(&mut self) -> (s: Option<Sample>) {
        let ghost pre = *self;
        if self.left > 0 {
            self.left = self.left - 1;
            let s = self.inner.next();
            proof {
                let rem = pre.inner.remaining();
                if rem.len() > 0 {
                    if pre.left <= rem.len() {
                        assert(rem.take(pre.left as int)[0] == rem[0]);
                        assert(self.remaining() =~= pre.remaining().skip(1));
                    } else {
                        assert(self.remaining() =~= pre.remaining().skip(1));
                    }
                } else {
                    assert(pre.remaining() =~= Seq::<u32>::empty());
                    assert(self.remaining() =~= Seq::<u32>::empty());
                }
            }
            s
        } else {
            proof {
                assert(self.remaining() =~= Seq::<u32>::empty());
            }
            None
        }
    }
}

/// Passes samples for a fixed playing time, then ends the stream. The cut
/// is whole samples: the time is rounded up to the next sample.
pub struct TakeDuration<S: FixedSource> {
    inner: TakeSamples<S>,
}

impl<S: FixedSource> TakeDuration<S> {
    /// How many samples a playing time spans at a sample rate, rounded up.
    pub open spec fn spec_sample_budget(duration_ns: u64, rate: u32) -> int {
        (duration_ns * rate + (NANOS_PER_SEC - 1)) / NANOS_PER_SEC as int
    }

    pub fn new(inner: S, duration_ns: u64) -> (r: TakeDuration<S>)
        requires
            inner.inv(),
            Self::spec_sample_budget(duration_ns, inner.spec_rate()) <= u64::MAX,
        ensures
            r.inv(),
            r.spec_channels() == inner.spec_channels(),
            r.spec_rate() == inner.spec_rate(),
            r.spec_duration() == inner.spec_duration(),
            r.spec_left() == Self::spec_sample_budget(duration_ns, inner.spec_rate()),
            r.remaining() == (if Self::spec_sample_budget(duration_ns, inner.spec_rate())
                <= inner.remaining().len() {
                inner.remaining().take(Self::spec_sample_budget(duration_ns, inner.spec_rate()))
            } else {
                inner.remaining()
            }),
    {
        let rate = inner.sample_rate();
        let wide: u128 = (duration_ns as u128) * (rate.get() as u128);
        let budget: u128 = (wide + ((NANOS_PER_SEC - 1) as u128)) / (NANOS_PER_SEC as u128);
        proof {
            assert(wide == duration_ns * inner.spec_rate());
            assert(budget == Self::spec_sample_budget(duration_ns, inner.spec_rate()));
        }
        let count: u64 = budget as u64;
        TakeDuration { inner: TakeSamples::new(inner, count) }
    }

    /// Samples this wrapper will still let through, at most.
    pub closed spec fn spec_left(&self) -> u64 {
        self.inner.spec_left()
    }
}

impl<S: FixedSource> FixedSource for TakeDuration<S> {
    closed spec fn inv(&self) -> bool {
        self.inner.inv()
    }

    closed spec fn spec_channels(&self) -> u16 {
        self.inner.spec_channels()
    }

    closed spec fn spec_rate(&self) -> u32 {
        self.inner.spec_rate()
    }

    closed spec fn remaining(&self) -> Seq<u32> {
        self.inner.remaining()
    }

    closed spec fn spec_duration(&self) -> Option<u64> {
        self.inner.spec_duration()
    }

    fn channels(&self) -> (c: ChannelCount)
        ensures
            c.spec_get() == self.spec_channels(),
    {
        self.inner.channels()
    }

    fn sample_rate(&self) -> (r: SampleRate)
        ensures
            r.spec_get() == self.spec_rate(),
    {
        self.inner.sample_rate()
    }

    fn total_duration(&self) -> (d: Option<u64>)
        ensures
            d == self.spec_duration(),
    {
        self.inner.total_duration()
    }

    fn next(&mut self) -> (s: Option<Sample>) {
        self.inner.next()
    }
}

} // verus!
