//! The cadence of control-plane propagation: once every N pulled samples
//! the pull path gives a callback exclusive access to the wrapped source,
//! and this timer decides when. N is computed once from the requested
//! wall-clock interval and the stream's sample rate.

use vstd::prelude::*;

use crate::buffer::NANOS_PER_SEC;
use crate::format::SampleRate;

verus! {

pub struct PeriodicTimer {
    period: u32,
    until_update: u32,
}

impl PeriodicTimer {
    /// How many samples one interval spans at a sample rate, rounded to
    /// the nearest sample, and never less than one.
    pub open spec fn spec_period(rate: u32, interval_ns: u64) -> int {
        let n = (rate * interval_ns + (NANOS_PER_SEC / 2)) / NANOS_PER_SEC as int;
        if n < 1 {
            1
        } else if n > u32::MAX {
            u32::MAX as int
        } else {
            n
        }
    }

    pub closed spec fn spec_period_of(&self) -> u32 {
        self.period
    }

    /// Samples left before the callback is due again.
    pub closed spec fn spec_until_update(&self) -> u32 {
        self.until_update
    }

    pub closed spec fn inv(&self) -> bool {
        &&& self.period >= 1
        &&& self.until_update < self.period
    }

    /// Builds the timer; the first tick is immediately due, so parameters
    /// propagate before the first sample plays.
    pub fn new(rate: SampleRate, interval_ns: u64) -> (r: PeriodicTimer)
        ensures
            r.inv(),
            r.spec_period_of() == Self::spec_period(rate.spec_get(), interval_ns),
            r.spec_until_update() == 0,
    {
        proof {
            vstd::arithmetic::mul::lemma_mul_upper_bound(
                rate.spec_get() as int,
                u32::MAX as int,
                interval_ns as int,
                u64::MAX as int,
            );
        }
        let wide: u128 = (rate.get() as u128) * (interval_ns as u128);
        let rounded: u128 = (wide + ((NANOS_PER_SEC / 2) as u128)) / (NANOS_PER_SEC as u128);
        let period: u32 = if rounded < 1 {
            1
        } else if rounded > (u32::MAX as u128) {
            u32::MAX
        } else {
            rounded as u32
        };
        PeriodicTimer { period, until_update: 0 }
    }

    /// One pulled sample's worth of time. Returns whether the callback is
    /// due now, which happens on the first tick and then once every
    /// period-th tick after it.
    pub fn tick(&mut self) -> (due: bool)
        requires
            old(self).inv(),
        ensures
            final(self).inv(),
            final(self).spec_period_of() == old(self).spec_period_of(),
            due <==> old(self).spec_until_update() == 0,
            final(self).spec_until_update() == (if due {
                (old(self).spec_period_of() - 1) as u32
            } else {
                (old(self).spec_until_update() - 1) as u32
            }),
    {
        if self.until_update == 0 {
            self.until_update = self.period - 1;
            true
        } else {
            self.until_update = self.until_update - 1;
            false
        }
    }
}

} // verus!
