//! Effect settings of a synth voice.

use vstd::prelude::*;

verus! {

/// Reverb setting.
#[derive(Clone, Copy, Debug, PartialEq, Eq)]
pub struct Reverb {
    pub room_size: i64,
    pub decay_time: i64,
    pub damping: i64,
    /// Wet share of the output: 0 is fully dry, 1 fully wet.
    pub mix: i64,
}

impl Default for Reverb {
    fn default() -> (r: Self)
        ensures
            r.room_size == 500_000,
            r.decay_time == 1_500_000,
            r.damping == 300_000,
            r.mix == 300_000,
    {
        Reverb { room_size: 500_000, decay_time: 1_500_000, damping: 300_000, mix: 300_000 }
    }
}

/// Delay setting.
#[derive(Clone, Copy, Debug, PartialEq, Eq)]
pub struct Delay {
    pub time_seconds: i64,
    pub feedback: i64,
    /// Wet share of the output: 0 is fully dry, 1 fully wet.
    pub mix: i64,
}

impl Default for Delay {
    fn default() -> (r: Self)
        ensures
            r.time_seconds == 300_000,
            r.feedback == 400_000,
            r.mix == 300_000,
    {
        Delay { time_seconds: 300_000, feedback: 400_000, mix: 300_000 }
    }
}

/// Soft-clipping distortion setting.
#[derive(Clone, Copy, Debug, PartialEq, Eq)]
pub struct Distortion {
    /// Drive: 1 is clean, more distorts more.
    pub drive: i64,
    /// Wet share of the output: 0 is fully dry, 1 fully wet.
    pub mix: i64,
}

impl Default for Distortion {
    fn default() -> (r: Self)
        ensures
            r.drive == 2_000_000,
            r.mix == 500_000,
    {
        Distortion { drive: 2_000_000, mix: 500_000 }
    }
}

} // verus!
