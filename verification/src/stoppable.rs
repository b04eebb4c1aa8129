//! A wrapper that can cut its source off for good: once stopped, the
//! stream has ended, whatever the source still held. The control plane
//! stops a track through this wrapper when its abort flag is raised.

use vstd::prelude::*;

use crate::format::{ChannelCount, SampleRate};
use crate::sample::Sample;
use crate::source::FixedSource;

verus! {

pub struct Stoppable<S: FixedSource> {
    inner: S,
    stop: bool,
}

impl<S: FixedSource> Stoppable<S> {
    pub fn new(inner: S) -> (r: Stoppable<S>)
        requires
            inner.inv(),
        ensures
            r.inv(),
            !r.spec_stopped(),
            r.spec_channels() == inner.spec_channels(),
            r.spec_rate() == inner.spec_rate(),
            r.spec_duration() == inner.spec_duration(),
            r.remaining() == inner.remaining(),
    {
        Stoppable { inner, stop: false }
    }

    pub closed spec fn spec_stopped(&self) -> bool {
        self.stop
    }

    /// Ends the stream: from here on nothing more plays.
    pub fn stop(&mut self)
        requires
            old(self).inv(),
        ensures
            final(self).inv(),
            final(self).spec_stopped(),
            final(self).spec_channels() == old(self).spec_channels(),
            final(self).spec_rate() == old(self).spec_rate(),
            final(self).remaining() == Seq::<u32>::empty(),
    {
        self.stop = true;
        proof {
            assert(self.remaining() =~= Seq::<u32>::empty());
        }
    }
}

impl<S: FixedSource> FixedSource for Stoppable<S> {
    closed spec fn inv(&self) -> bool {
        self.inner.inv()
    }

    closed spec fn spec_channels(&self) -> u16 {
        self.inner.spec_channels()
    }

    closed spec fn spec_rate(&self) -> u32 {
        self.inner.spec_rate()
    }

    closed spec fn remaining(&self) -> Seq<u32> {
        if self.stop {
            Seq::empty()
        } else {
            self.inner.remaining()
        }
    }

    closed spec fn spec_duration(&self) -> Option<u64> {
        self.inner.spec_duration()
    }

    fn channels(&self) -> (c: ChannelCount)
        ensures
            c.spec_get() == self.spec_channels(),
    {
        self.inner.channels()
    }

    fn sample_rate(&self) -> (r: SampleRate)
        ensures
            r.spec_get() == self.spec_rate(),
    {
        self.inner.sample_rate()
    }

    fn total_duration(&self) -> (d: Option<u64>)
        ensures
            d == self.spec_duration(),
    {
        self.inner.total_duration()
    }

    fn next(&mut self) -> (s: Option<Sample>) {
        if self.stop {
            None
        } else {
            self.inner.next()
        }
    }
}

} // verus!
