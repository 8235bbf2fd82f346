//! The closed set of audio units a signal graph is made of.
//!
//! A unit is described by plain data: what kind of processor it is and the
//! constants it runs with.  Times are seconds, frequencies hertz, rates
//! one-per-second; all are fixed-point (see `crate::fixed`).

use vstd::prelude::*;
use crate::components::synth::OscillatorType;
use crate::fixed::{clamp_spec, cycle, cycle_spec, in_range, scale, scale_spec, ONE};

verus! {

/// A live parameter that a graph reads while it renders.
#[derive(Clone, Copy, Debug, PartialEq, Eq)]
pub enum ParamSlot {
    Frequency,
    Amplitude,
    FilterCutoff,
    FilterResonance,
    HeartRate,
    Intensity,
    Arrhythmia,
}

/// A linear rise from 0 to 1 that starts at `delay` and climbs by `rate` per second.
#[derive(Clone, Copy, Debug, PartialEq, Eq)]
pub struct Ramp {
    pub delay: i64,
    pub rate: i64,
}

/// An exponential fall `exp(-rate * max(t - delay, 0))`.
#[derive(Clone, Copy, Debug, PartialEq, Eq)]
pub struct Decay {
    pub delay: i64,
    pub rate: i64,
}

/// A gate that opens and closes erratically: the product of two or three
/// sines at the given rates (in hertz), with its negative half cut off.
#[derive(Clone, Copy, Debug, PartialEq, Eq)]
pub struct Stutter {
    pub first: i64,
    pub second: i64,
    pub third: Option<i64>,
}

/// The amplitude of one layer over local time `t`:
/// `rise(t) * fall(t) * stutter(t) * gain` while `t <= cutoff`, and 0 afterwards.
#[derive(Clone, Copy, Debug, PartialEq, Eq)]
pub struct Envelope {
    pub cutoff: i64,
    pub attack: Option<Ramp>,
    pub decay: Decay,
    pub stutter: Option<Stutter>,
    pub gain: i64,
}

impl Ramp {
    /// The height of the ramp at time `t`, between 0 and `ONE`.
    pub open spec fn level_spec(&self, t: int) -> int {
        clamp_spec(((t - self.delay) * self.rate) / (ONE as int), 0, ONE as int)
    }

    /// The height of the ramp at time `t`.
    pub fn level(&self, t: i64) -> (r: i64)
        ensures
            r == self.level_spec(t as int),
            0 <= r <= ONE,
    {
        let dt: i128 = (t as i128) - (self.delay as i128);
        assert(-0x1_0000_0000_0000_0000 < dt < 0x1_0000_0000_0000_0000);
        assert(-0x7FFF_FFFF_FFFF_FFFF_8000_0000_0000_0000 <= dt * self.rate
            <= 0x7FFF_FFFF_FFFF_FFFF_8000_0000_0000_0000) by (nonlinear_arith)
            requires
                -0xFFFF_FFFF_FFFF_FFFF <= dt <= 0xFFFF_FFFF_FFFF_FFFF,
                -0x8000_0000_0000_0000 <= self.rate <= 0x8000_0000_0000_0000,
        ;
        let wide: i128 = dt * (self.rate as i128);
        let q: i128 = if wide >= 0 || wide % 1_000_000 == 0 {
            wide / 1_000_000
        } else {
            wide / 1_000_000 - 1
        };
        if q < 0 {
            0
        } else if q > 1_000_000 {
            1_000_000
        } else {
            q as i64
        }
    }
}

impl Envelope {
    /// The plain envelope `min(attack * t, 1) * exp(-decay * t) * gain`, cut off after `cutoff`.
    pub open spec fn pluck_spec(cutoff: i64, attack: i64, decay: i64, gain: i64) -> Envelope {
        Envelope {
            cutoff,
            attack: Some(Ramp { delay: 0, rate: attack }),
            decay: Decay { delay: 0, rate: decay },
            stutter: None,
            gain,
        }
    }

    /// The plain envelope `min(attack * t, 1) * exp(-decay * t) * gain`, cut off after `cutoff`.
    pub fn pluck(cutoff: i64, attack: i64, decay: i64, gain: i64) -> (e: Envelope)
        ensures
            e == Envelope::pluck_spec(cutoff, attack, decay, gain),
    {
        Envelope {
            cutoff,
            attack: Some(Ramp { delay: 0, rate: attack }),
            decay: Decay { delay: 0, rate: decay },
            stutter: None,
            gain,
        }
    }

    /// Whether the envelope is past its cutoff at time `t`, where its value is exactly 0.
    pub open spec fn silent_at(&self, t: int) -> bool {
        t > self.cutoff
    }

    /// Whether the envelope is past its cutoff at time `t`.
    pub fn is_silent(&self, t: i64) -> (r: bool)
        ensures
            r == self.silent_at(t as int),
    {
        t > self.cutoff
    }

    /// The rise factor at time `t`: the attack ramp, or `ONE` where there is none.
    pub open spec fn rise_spec(&self, t: int) -> int {
        match self.attack {
            Some(ramp) => ramp.level_spec(t),
            None => ONE as int,
        }
    }

    /// The rise factor at time `t`.
    pub fn rise(&self, t: i64) -> (r: i64)
        ensures
            r == self.rise_spec(t as int),
            0 <= r <= ONE,
    {
        match self.attack {
            Some(ramp) => ramp.level(t),
            None => 1_000_000,
        }
    }
}

/// `offset + depth * sin(2 pi * rate * t)`.
#[derive(Clone, Copy, Debug, PartialEq, Eq)]
pub struct Wobble {
    pub offset: i64,
    pub depth: i64,
    pub rate: i64,
}

/// `base + depth * cos^2(2 pi * rate * t)`, or with `sin^2` where `quadrature` is set.
#[derive(Clone, Copy, Debug, PartialEq, Eq)]
pub struct Pan {
    pub base: i64,
    pub depth: i64,
    pub rate: i64,
    pub quadrature: bool,
}

impl Pan {
    /// The gain where the squared sine or cosine is `square`.
    pub open spec fn gain_spec(&self, square: i64) -> i64 {
        (self.base + scale_spec(self.depth, square)) as i64
    }

    /// The gain where the squared sine or cosine is `square`, a number
    /// between 0 and `ONE`.  With a depth that is not negative it lies
    /// between `base` and `base + depth`.
    pub fn gain(&self, square: i64) -> (r: i64)
        requires
            in_range(self.base),
            in_range(self.depth),
            0 <= square <= ONE,
        ensures
            r == self.gain_spec(square),
            r == self.base + (self.depth * square) / (ONE as int),
            self.depth >= 0 ==> self.base <= r <= self.base + self.depth,
    {
        proof {
            lemma_share_bounds(self.depth as int, square as int);
        }
        self.base + scale(self.depth, square)
    }

    /// How far the pan is into its cycle at time `t`: a fraction of a cycle,
    /// at least 0 and below `ONE`.
    pub fn phase(&self, t: i64) -> (r: i64)
        ensures
            r == cycle_spec(self.rate, t),
            0 <= r < ONE,
    {
        cycle(self.rate, t)
    }
}

/// A share of an amount lies between nothing and the amount.
pub proof fn lemma_share_bounds(amount: int, share: int)
    by (nonlinear_arith)
    requires
        0 <= share <= ONE,
    ensures
        amount >= 0 ==> 0 <= (amount * share) / (ONE as int) <= amount,
        amount < 0 ==> amount <= (amount * share) / (ONE as int) <= 0,
{
}

/// A control signal: a function of local time alone.
#[derive(Clone, Copy, Debug, PartialEq, Eq)]
pub enum Control {
    /// The amplitude envelope of a layer.
    Envelope(Envelope),
    /// `base + range * exp(-rate * t)`.
    ExpSweep { base: i64, range: i64, rate: i64 },
    /// `from + (to - from) * t / cutoff` while `t <= cutoff`, and 0 afterwards.
    LinearSweep { cutoff: i64, from: i64, to: i64 },
    /// `floor + (peak - floor) * exp(-sharpness * (t / cutoff - center)^2)`
    /// while `t <= cutoff`, and `floor` afterwards.
    Bell { cutoff: i64, floor: i64, peak: i64, center: i64, sharpness: i64 },
    /// The product of two wobbles.
    Tremolo { throb: Wobble, flutter: Wobble },
    /// The gain of one channel of a sound that circles the listener.
    Pan(Pan),
}

impl Control {
    /// Whether the control has left its shape at local time `t`: an
    /// envelope and a linear sweep are then 0, a bell rests at its floor.
    /// The other controls never leave their shape.
    pub open spec fn past_spec(&self, t: int) -> bool {
        match *self {
            Control::Envelope(e) => t > e.cutoff,
            Control::LinearSweep { cutoff, .. } => t > cutoff,
            Control::Bell { cutoff, .. } => t > cutoff,
            _ => false,
        }
    }

    /// Whether the control has left its shape at local time `t`.
    pub fn is_past(&self, t: i64) -> (r: bool)
        ensures
            r == self.past_spec(t as int),
    {
        match *self {
            Control::Envelope(e) => t > e.cutoff,
            Control::LinearSweep { cutoff, .. } => t > cutoff,
            Control::Bell { cutoff, .. } => t > cutoff,
            _ => false,
        }
    }

    /// The time after which the control is exactly 0, where there is one.
    pub open spec fn cutoff_spec(&self) -> Option<i64> {
        match *self {
            Control::Envelope(e) => Some(e.cutoff),
            Control::LinearSweep { cutoff, .. } => Some(cutoff),
            _ => None,
        }
    }

    /// The time after which the control is exactly 0, where there is one.
    pub fn cutoff(&self) -> (r: Option<i64>)
        ensures
            r == self.cutoff_spec(),
    {
        match *self {
            Control::Envelope(e) => Some(e.cutoff),
            Control::LinearSweep { cutoff, .. } => Some(cutoff),
            _ => None,
        }
    }
}

/// One heart sound: two harmonics under a short attack and an exponential decay.
#[derive(Clone, Copy, Debug, PartialEq, Eq)]
pub struct Burst {
    pub freq_lo: i64,
    pub freq_hi: i64,
    pub decay: i64,
}

/// The two bursts of a heartbeat: the second starts `s2_phase` of a beat
/// after the first and is `s2_gain` as loud.
#[derive(Clone, Copy, Debug, PartialEq, Eq)]
pub struct HeartPulse {
    pub s1: Burst,
    pub s2: Burst,
    pub s2_phase: i64,
    pub s2_gain: i64,
}

/// Centre frequency and quality of a band-pass filter.
#[derive(Clone, Copy, Debug, PartialEq, Eq)]
pub struct BandShape {
    pub center: i64,
    pub q: i64,
}

/// The settings of a stereo reverb unit.
#[derive(Clone, Copy, Debug, PartialEq, Eq)]
pub struct ReverbUnit {
    pub room_size: i64,
    pub time: i64,
    pub diffusion: i64,
    pub modulation: i64,
    pub damping_cutoff: i64,
}

impl ReverbUnit {
    /// A reverb with the modulation speed 1 that all sounds of this library use.
    pub open spec fn hall_spec(room_size: i64, time: i64, diffusion: i64, damping_cutoff: i64) -> ReverbUnit {
        ReverbUnit { room_size, time, diffusion, modulation: ONE, damping_cutoff }
    }

    /// A reverb with the modulation speed 1 that all sounds of this library use.
    pub fn hall(room_size: i64, time: i64, diffusion: i64, damping_cutoff: i64) -> (r: ReverbUnit)
        ensures
            r == ReverbUnit::hall_spec(room_size, time, diffusion, damping_cutoff),
    {
        ReverbUnit { room_size, time, diffusion, modulation: ONE, damping_cutoff }
    }
}

/// What a node of a signal graph computes.
#[derive(Clone, Copy, Debug, PartialEq, Eq)]
pub enum UnitKind {
    /// An oscillator.  With `freq` set it runs at that frequency and has no
    /// input; without, its one input is the frequency.  Noise has no input.
    Oscillator { wave: OscillatorType, freq: Option<i64> },
    /// A constant signal.
    Constant(i64),
    /// A control signal over local time.
    Control(Control),
    /// The current value of a live parameter.
    Param(ParamSlot),
    /// One-pole low-pass.  Without a cutoff, its second input is the cutoff.
    LowPole(Option<i64>),
    /// One-pole high-pass.  Without a cutoff, its second input is the cutoff.
    HighPole(Option<i64>),
    /// Resonant ladder low-pass; inputs are signal, cutoff, resonance.
    Moog,
    /// Band-pass.  Without a shape, inputs are signal, centre, quality.
    BandPass(Option<BandShape>),
    /// Saturating waveshaper `(1 - mix) * x + mix * tanh(drive * x)`.
    Distortion { drive: i64, mix: i64 },
    /// Multiplies its input by a constant.
    Gain(i64),
    /// The sum of its two inputs.
    Add,
    /// The product of its two inputs.
    Multiply,
    /// `dry * first input + wet * second input`.
    Crossfade { dry: i64, wet: i64 },
    /// Copies a mono input to two outputs.
    Split,
    /// Stereo reverb.
    Reverb(ReverbUnit),
    /// The rhythm generator of the heartbeat; inputs are the heart rate in
    /// beats per minute and the arrhythmia.
    HeartPulse(HeartPulse),
}

impl UnitKind {
    /// The number of input ports of a unit of this kind.
    pub open spec fn input_count(&self) -> nat {
        match *self {
            UnitKind::Oscillator { wave, freq } => if wave == OscillatorType::Noise
                || freq is Some {
                0
            } else {
                1
            },
            UnitKind::Constant(_) => 0,
            UnitKind::Control(_) => 0,
            UnitKind::Param(_) => 0,
            UnitKind::LowPole(cutoff) => if cutoff is Some {
                1
            } else {
                2
            },
            UnitKind::HighPole(cutoff) => if cutoff is Some {
                1
            } else {
                2
            },
            UnitKind::Moog => 3,
            UnitKind::BandPass(shape) => if shape is Some {
                1
            } else {
                3
            },
            UnitKind::Distortion { .. } => 1,
            UnitKind::Gain(_) => 1,
            UnitKind::Add => 2,
            UnitKind::Multiply => 2,
            UnitKind::Crossfade { .. } => 2,
            UnitKind::Split => 1,
            UnitKind::Reverb(_) => 2,
            UnitKind::HeartPulse(_) => 2,
        }
    }

    /// The number of output ports of a unit of this kind.
    pub open spec fn output_count(&self) -> nat {
        match *self {
            UnitKind::Split => 2,
            UnitKind::Reverb(_) => 2,
            _ => 1,
        }
    }

    /// The number of input ports of a unit of this kind.
    pub fn inputs(&self) -> (n: usize)
        ensures
            n == self.input_count(),
    {
        match *self {
            UnitKind::Oscillator { wave, freq } => {
                let noise = match wave {
                    OscillatorType::Noise => true,
                    _ => false,
                };
                if noise || freq.is_some() {
                    0
                } else {
                    1
                }
            },
            UnitKind::Constant(_) => 0,
            UnitKind::Control(_) => 0,
            UnitKind::Param(_) => 0,
            UnitKind::LowPole(cutoff) => if cutoff.is_some() {
                1
            } else {
                2
            },
            UnitKind::HighPole(cutoff) => if cutoff.is_some() {
                1
            } else {
                2
            },
            UnitKind::Moog => 3,
            UnitKind::BandPass(shape) => if shape.is_some() {
                1
            } else {
                3
            },
            UnitKind::Distortion { .. } => 1,
            UnitKind::Gain(_) => 1,
            UnitKind::Add => 2,
            UnitKind::Multiply => 2,
            UnitKind::Crossfade { .. } => 2,
            UnitKind::Split => 1,
            UnitKind::Reverb(_) => 2,
            UnitKind::HeartPulse(_) => 2,
        }
    }

    /// The number of output ports of a unit of this kind.
    pub fn outputs(&self) -> (n: usize)
        ensures
            n == self.output_count(),
    {
        match *self {
            UnitKind::Split => 2,
            UnitKind::Reverb(_) => 2,
            _ => 1,
        }
    }
}

} // verus!
