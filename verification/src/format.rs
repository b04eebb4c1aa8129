//! Audio formats: a sample rate and a channel count, both always positive.
//! A zero value is a construction-time error, never a runtime state.

use vstd::prelude::*;

verus! {

/// Number of interleaved channels in a stream; always at least one.
#[derive(Clone, Copy, Debug, PartialEq, Eq, Structural)]
pub struct ChannelCount {
    count: u16,
}

impl ChannelCount {
    #[verifier::type_invariant]
    spec fn positive(self) -> bool {
        self.count > 0
    }

    pub closed spec fn spec_get(self) -> u16 {
        self.count
    }

    /// Builds a channel count; zero is rejected.
    pub fn try_new(count: u16) -> (r: Option<ChannelCount>)
        ensures
            r is Some <==> count > 0,
            r is Some ==> r.unwrap().spec_get() == count,
    {
        if count > 0 {
            Some(ChannelCount { count })
        } else {
            None
        }
    }

    /// Builds a channel count from a value already known to be positive.
    pub fn new(count: u16) -> (r: ChannelCount)
        requires
            count > 0,
        ensures
            r.spec_get() == count,
    {
        ChannelCount { count }
    }

    pub fn get(&self) -> (r: u16)
        ensures
            r == self.spec_get(),
            r > 0,
    {
        proof {
            use_type_invariant(self);
        }
        self.count
    }
}

/// Samples per second per channel; always at least one.
#[derive(Clone, Copy, Debug, PartialEq, Eq, Structural)]
pub struct SampleRate {
    rate: u32,
}

impl SampleRate {
    #[verifier::type_invariant]
    spec fn positive(self) -> bool {
        self.rate > 0
    }

    pub closed spec fn spec_get(self) -> u32 {
        self.rate
    }

    /// Builds a sample rate; zero is rejected.
    pub fn try_new(rate: u32) -> (r: Option<SampleRate>)
        ensures
            r is Some <==> rate > 0,
            r is Some ==> r.unwrap().spec_get() == rate,
    {
        if rate > 0 {
            Some(SampleRate { rate })
        } else {
            None
        }
    }

    /// Builds a sample rate from a value already known to be positive.
    pub fn new(rate: u32) -> (r: SampleRate)
        requires
            rate > 0,
        ensures
            r.spec_get() == rate,
    {
        SampleRate { rate }
    }

    pub fn get(&self) -> (r: u32)
        ensures
            r == self.spec_get(),
            r > 0,
    {
        proof {
            use_type_invariant(self);
        }
        self.rate
    }
}

} // verus!
