//! The runtime-fixed source capability: a lazy, non-restartable sequence of
//! samples with a sample rate and a channel count that never change for the
//! lifetime of one instance.
//!
//! A stronger capability would carry the format in the source's type and
//! rule out mismatches at compile time; every source here stays at the
//! runtime-fixed strength instead, and the adaptors that need one format
//! check it at submission time and reject mismatches. That check is the
//! guarantee, and it is the weaker of the two.
//!
//! A source's behaviour is specified through its model: the sequence of
//! sample bit patterns it has still to emit. Pulling a sample removes the
//! head of that sequence; an exhausted source keeps answering end-of-stream.

use vstd::prelude::*;

use crate::format::{ChannelCount, SampleRate};
use crate::sample::Sample;

verus! {

pub trait FixedSource: Sized {
    /// Well-formedness: constructors establish it, pulling preserves it.
    spec fn inv(&self) -> bool;

    /// Channel count of the emitted stream; never changes.
    spec fn spec_channels(&self) -> u16;

    /// Sample rate of the emitted stream; never changes.
    spec fn spec_rate(&self) -> u32;

    /// The samples still to be emitted, oldest first, as bit patterns.
    spec fn remaining(&self) -> Seq<u32>;

    /// The playing time the source claims is left, in nanoseconds;
    /// `None` means unknown or unbounded. Callers must not cache it:
    /// it may change across pulls.
    spec fn spec_duration(&self) -> Option<u64>;

    fn channels(&self) -> (c: ChannelCount)
        ensures
            c.spec_get() == self.spec_channels(),
    ;

    fn sample_rate(&self) -> (r: SampleRate)
        ensures
            r.spec_get() == self.spec_rate(),
    ;

    fn total_duration(&self) -> (d: Option<u64>)
        requires
            self.inv(),
        ensures
            d == self.spec_duration(),
    ;

    /// Pulls the next sample: the head of `remaining`, or end-of-stream
    /// once nothing is left. The format never changes.
    fn next(&mut self) -> (s: Option<Sample>)
        requires
            old(self).inv(),
        ensures
            final(self).inv(),
            final(self).spec_channels() == old(self).spec_channels(),
            final(self).spec_rate() == old(self).spec_rate(),
            old(self).remaining().len() > 0 ==> {
                &&& s == Some(Sample { bits: old(self).remaining()[0] })
                &&& final(self).remaining() == old(self).remaining().skip(1)
            },
            old(self).remaining().len() == 0 ==> {
                &&& s is None
                &&& final(self).remaining() == old(self).remaining()
            },
    ;
}

} // verus!
