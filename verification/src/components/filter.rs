//! Filter settings of a synth voice.

use vstd::prelude::*;

verus! {

/// Low-pass filter setting.
#[derive(Clone, Copy, Debug, PartialEq, Eq)]
pub struct LowPass {
    pub cutoff_hz: i64,
    pub resonance: i64,
}

impl Default for LowPass {
    fn default() -> (r: Self)
        ensures
            r.cutoff_hz == 1_000_000_000,
            r.resonance == 1_000_000,
    {
        LowPass { cutoff_hz: 1_000_000_000, resonance: 1_000_000 }
    }
}

/// High-pass filter setting.
#[derive(Clone, Copy, Debug, PartialEq, Eq)]
pub struct HighPass {
    pub cutoff_hz: i64,
    pub resonance: i64,
}

impl Default for HighPass {
    fn default() -> (r: Self)
        ensures
            r.cutoff_hz == 200_000_000,
            r.resonance == 1_000_000,
    {
        HighPass { cutoff_hz: 200_000_000, resonance: 1_000_000 }
    }
}

/// Band-pass filter setting.
#[derive(Clone, Copy, Debug, PartialEq, Eq)]
pub struct BandPass {
    pub center_hz: i64,
    pub bandwidth: i64,
}

impl Default for BandPass {
    fn default() -> (r: Self)
        ensures
            r.center_hz == 1_000_000_000,
            r.bandwidth == 200_000_000,
    {
        BandPass { center_hz: 1_000_000_000, bandwidth: 200_000_000 }
    }
}

} // verus!
