//! Pushing changed settings into the live parameters.

use vstd::prelude::*;
use crate::components::filter::{BandPass, HighPass, LowPass};
use crate::components::synth::{Amplitude, Frequency};
use crate::dsp::graph_builder::{SynthParams, SynthParamsView};
use crate::dsp::param::{ParamHandle, ParamView};
use crate::presets::ear_ringing::{EarRinging, EarRingingParams, EarRingingParamsView};
use crate::presets::heartbeat::{Heartbeat, HeartbeatParams, HeartbeatParamsView};

verus! {

/// A setting of a synth voice that has changed.
#[derive(Clone, Copy, Debug, PartialEq, Eq)]
pub enum SynthChange {
    Frequency(Frequency),
    Amplitude(Amplitude),
    LowPass(LowPass),
    HighPass(HighPass),
    BandPass(BandPass),
}

/// The cell, where there is one, after `value` has been written to it.
pub open spec fn written(cell: Option<ParamView>, value: i64) -> Option<ParamView> {
    match cell {
        Some(c) => Some(c.set(value)),
        None => None,
    }
}

/// The live parameters of a synth voice after a change has been pushed.
pub open spec fn synced(params: SynthParamsView, change: SynthChange) -> SynthParamsView {
    match change {
        SynthChange::Frequency(f) => SynthParamsView {
            frequency: params.frequency.set(f.0),
            ..params
        },
        SynthChange::Amplitude(a) => SynthParamsView {
            amplitude: params.amplitude.set(a.0),
            ..params
        },
        SynthChange::LowPass(lp) => SynthParamsView {
            filter_cutoff: written(params.filter_cutoff, lp.cutoff_hz),
            filter_resonance: written(params.filter_resonance, lp.resonance),
            ..params
        },
        SynthChange::HighPass(hp) => SynthParamsView {
            filter_cutoff: written(params.filter_cutoff, hp.cutoff_hz),
            ..params
        },
        SynthChange::BandPass(bp) => SynthParamsView {
            filter_cutoff: written(params.filter_cutoff, bp.center_hz),
            filter_resonance: written(params.filter_resonance, bp.bandwidth),
            ..params
        },
    }
}

/// Writes `value` to the cell, where there is one.
fn write(cell: &mut Option<ParamHandle>, value: i64)
    ensures
        crate::dsp::graph_builder::handle_view(*final(cell)) == written(
            crate::dsp::graph_builder::handle_view(*old(cell)),
            value,
        ),
{
    match cell {
        Some(handle) => {
            handle.set(value);
        },
        None => {},
    }
}

/// Pushes a changed setting of a synth voice into its live parameters.
/// Each value is clamped to the range of its cell; a filter setting for
/// which the voice has no cell changes nothing.
pub fn param_sync_system(change: &SynthChange, params: &mut SynthParams)
    ensures
        final(params)@ == synced(old(params)@, *change),
{
    match change {
        SynthChange::Frequency(freq) => {
            params.frequency.set(freq.0);
        },
        SynthChange::Amplitude(amp) => {
            params.amplitude.set(amp.0);
        },
        SynthChange::LowPass(lp) => {
            write(&mut params.filter_cutoff, lp.cutoff_hz);
            write(&mut params.filter_resonance, lp.resonance);
        },
        SynthChange::HighPass(hp) => {
            write(&mut params.filter_cutoff, hp.cutoff_hz);
        },
        SynthChange::BandPass(bp) => {
            write(&mut params.filter_cutoff, bp.center_hz);
            write(&mut params.filter_resonance, bp.bandwidth);
        },
    }
}

/// Pushes the settings of a heartbeat into its live parameters.
pub fn heartbeat_sync_system(hb: &Heartbeat, params: &mut HeartbeatParams)
    ensures
        final(params)@ == (HeartbeatParamsView {
            rate: old(params)@.rate.set(hb.heart_rate),
            intensity: old(params)@.intensity.set(hb.intensity),
            arrhythmia: old(params)@.arrhythmia.set(hb.arrhythmic_strength),
        }),
{
    params.rate.set(hb.heart_rate);
    params.intensity.set(hb.intensity);
    params.arrhythmia.set(hb.arrhythmic_strength);
}

/// Pushes the settings of an ear ringing into its live parameter.
pub fn ear_ringing_sync_system(er: &EarRinging, params: &mut EarRingingParams)
    ensures
        final(params)@ == (EarRingingParamsView {
            intensity: old(params)@.intensity.set(er.intensity),
        }),
{
    params.intensity.set(er.intensity);
}

} // verus!
