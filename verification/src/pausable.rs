//! A wrapper that can hold its source still: while paused it emits
//! silence without consuming the source, so playback resumes exactly
//! where it stopped.
//!
//! A paused stream never ends, so this wrapper is not itself a
//! finite-stream source; it exposes the same pulling interface directly.

use vstd::prelude::*;

use crate::format::{ChannelCount, SampleRate};
use crate::sample::Sample;
use crate::source::FixedSource;

verus! {

pub struct Pausable<S: FixedSource> {
    inner: S,
    paused: bool,
}

impl<S: FixedSource> Pausable<S> {
    pub closed spec fn inv(&self) -> bool {
        self.inner.inv()
    }

    pub closed spec fn spec_paused(&self) -> bool {
        self.paused
    }

    pub closed spec fn spec_channels(&self) -> u16 {
        self.inner.spec_channels()
    }

    pub closed spec fn spec_rate(&self) -> u32 {
        self.inner.spec_rate()
    }

    /// What the wrapped source still holds; unaffected by pausing.
    pub closed spec fn remaining_inner(&self) -> Seq<u32> {
        self.inner.remaining()
    }

    pub fn new(inner: S, paused: bool) -> (r: Pausable<S>)
        requires
            inner.inv(),
        ensures
            r.inv(),
            r.spec_paused() == paused,
            r.spec_channels() == inner.spec_channels(),
            r.spec_rate() == inner.spec_rate(),
            r.remaining_inner() == inner.remaining(),
    {
        Pausable { inner, paused }
    }

    pub fn set_paused(&mut self, paused: bool)
        requires
            old(self).inv(),
        ensures
            final(self).inv(),
            final(self).spec_paused() == paused,
            final(self).spec_channels() == old(self).spec_channels(),
            final(self).spec_rate() == old(self).spec_rate(),
            final(self).remaining_inner() == old(self).remaining_inner(),
    {
        self.paused = paused;
    }

    pub fn channels(&self) -> (c: ChannelCount)
        ensures
            c.spec_get() == self.spec_channels(),
    {
        self.inner.channels()
    }

    pub fn sample_rate(&self) -> (r: SampleRate)
        ensures
            r.spec_get() == self.spec_rate(),
    {
        self.inner.sample_rate()
    }

    /// While paused: silence, and the source stands still. While playing:
    /// exactly the wrapped source's pull.
    pub fn next(&mut self) -> (s: Option<Sample>)
        requires
            old(self).inv(),
        ensures
            final(self).inv(),
            final(self).spec_paused() == old(self).spec_paused(),
            final(self).spec_channels() == old(self).spec_channels(),
            final(self).spec_rate() == old(self).spec_rate(),
            old(self).spec_paused() ==> {
                &&& s == Some(Sample::spec_silence())
                &&& final(self).remaining_inner() == old(self).remaining_inner()
            },
            !old(self).spec_paused() && old(self).remaining_inner().len() > 0 ==> {
                &&& s == Some(Sample { bits: old(self).remaining_inner()[0] })
                &&& final(self).remaining_inner() == old(self).remaining_inner().skip(1)
            },
            !old(self).spec_paused() && old(self).remaining_inner().len() == 0 ==> {
                &&& s is None
                &&& final(self).remaining_inner() == old(self).remaining_inner()
            },
    {
        if self.paused {
            Some(Sample::silence())
        } else {
            self.inner.next()
        }
    }
}

} // verus!
