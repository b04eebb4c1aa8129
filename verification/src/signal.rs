//! The test waveforms a signal generator can produce. Producing the
//! waveform is floating-point work outside the verified core; the choice
//! of waveform is a plain value.

use vstd::prelude::*;

verus! {

#[derive(Debug, Clone, Copy, PartialEq, Eq, Structural)]
pub enum Function {
    Sine,
    Triangle,
    Square,
    Sawtooth,
}

impl Default for Function {
    fn default() -> (r: Function)
        ensures
            r == Function::Sine,
    {
        Function::Sine
    }
}

} // verus!
