//! Oscillator selection and the two basic voice parameters.

use vstd::prelude::*;

verus! {

/// Marks a voice for which a signal graph is to be built.
#[derive(Clone, Copy, Debug, PartialEq, Eq)]
pub struct Synth;

impl Default for Synth {
    fn default() -> (r: Self) {
        Synth
    }
}

/// Oscillator waveform.
#[derive(Clone, Copy, Debug, PartialEq, Eq)]
pub enum OscillatorType {
    Sine,
    Saw,
    Square,
    Triangle,
    Noise,
}

impl Default for OscillatorType {
    fn default() -> (r: Self)
        ensures
            r == OscillatorType::Sine,
    {
        OscillatorType::Sine
    }
}

/// Oscillator frequency in hertz.
#[derive(Clone, Copy, Debug, PartialEq, Eq)]
pub struct Frequency(pub i64);

impl Default for Frequency {
    fn default() -> (r: Self)
        ensures
            r.0 == 440_000_000,
    {
        Frequency(440_000_000)
    }
}

/// Output amplitude, nominally between 0 and 1.
#[derive(Clone, Copy, Debug, PartialEq, Eq)]
pub struct Amplitude(pub i64);

impl Default for Amplitude {
    fn default() -> (r: Self)
        ensures
            r.0 == 300_000,
    {
        Amplitude(300_000)
    }
}

} // verus!
