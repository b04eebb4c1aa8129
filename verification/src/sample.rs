//! The unit the whole pipeline operates on: one amplitude value, carried as
//! the raw bit pattern of its 32-bit binary representation. The pipeline
//! never does arithmetic on amplitudes; it moves, duplicates, schedules and
//! drops them, so the bit pattern is all it needs to know.

use vstd::prelude::*;

verus! {

/// One amplitude value of one channel at one instant, as its bit pattern.
/// The zero amplitude (digital silence) has the all-zero bit pattern.
#[derive(Clone, Copy, Debug, PartialEq, Eq, Structural)]
pub struct Sample {
    pub bits: u32,
}

impl Sample {
    /// The silent sample: amplitude zero.
    pub open spec fn spec_silence() -> Sample {
        Sample { bits: 0 }
    }

    pub fn silence() -> (s: Sample)
        ensures
            s == Sample::spec_silence(),
    {
        Sample { bits: 0 }
    }

    pub fn from_bits(bits: u32) -> (s: Sample)
        ensures
            s.bits == bits,
    {
        Sample { bits }
    }

    pub fn to_bits(&self) -> (bits: u32)
        ensures
            bits == self.bits,
    {
        self.bits
    }
}

} // verus!
