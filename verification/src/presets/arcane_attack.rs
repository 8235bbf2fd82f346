//! Arcane attack: a shimmer of detuned sines, a sparkle of stuttering noise,
//! a rising sweep, a wash of noise and a bell-like cluster, under two
//! low-pass poles.  All layers are silent after 0.6 s.

use vstd::prelude::*;
use crate::dsp::design::{
    assemble, assemble_spec, design_signal, is_latest_cutoff, reverb_send, reverb_send_spec, Layer, LayerView, Partial,
    SoundDesign, SoundDesignView, Source, SourceView,
};
use crate::dsp::graph::Graph;
use crate::dsp::signal::output_signal;
use crate::dsp::unit::{BandShape, Control, Decay, Envelope, Ramp, ReverbUnit, Stutter};
use crate::fixed::{confine, confine_spec, in_range, scale, scale_spec, ONE};

verus! {

/// The settings of an arcane attack.
#[derive(Clone, Copy, Debug, PartialEq, Eq)]
pub struct ArcaneAttack {
    /// Overall loudness, nominally between 0 and 1.
    pub intensity: i64,
    /// Factor on every frequency: 1 is the normal pitch.
    pub pitch_shift: i64,
    /// Wet share of the reverb: 0 is dry, 1 fully wet.
    pub reverb_mix: i64,
    /// Cutoff in hertz of the low-pass on the whole sound.
    pub lowpass: i64,
}

impl Default for ArcaneAttack {
    fn default() -> (r: Self)
        ensures
            r == (ArcaneAttack {
                intensity: 800_000,
                pitch_shift: 1_000_000,
                reverb_mix: 300_000,
                lowpass: 20_000_000_000,
            }),
    {
        ArcaneAttack {
            intensity: 800_000,
            pitch_shift: 1_000_000,
            reverb_mix: 300_000,
            lowpass: 20_000_000_000,
        }
    }
}

/// A sine at `freq` hertz times the pitch, with the given weight.
pub open spec fn partial_spec(freq: i64, weight: i64, pitch: i64) -> Partial {
    Partial { freq: scale_spec(freq, pitch), weight }
}

/// The shimmer: 880 Hz and 1320 Hz, each with a copy five cents above and
/// one five cents below.
pub open spec fn shimmer_spec(p: i64) -> Seq<Partial> {
    seq![
        partial_spec(880_000_000, ONE, p),
        partial_spec(882_545_840, ONE, p),
        partial_spec(877_461_503, ONE, p),
        partial_spec(1_320_000_000, ONE, p),
        partial_spec(1_323_818_760, ONE, p),
        partial_spec(1_316_192_255, ONE, p),
    ]
}

/// The bell: five inharmonic partials, the higher the quieter.
pub open spec fn bell_spec(p: i64) -> Seq<Partial> {
    seq![
        partial_spec(1_320_000_000, ONE, p),
        partial_spec(1_720_000_000, 800_000, p),
        partial_spec(2_150_000_000, 600_000, p),
        partial_spec(2_680_000_000, 400_000, p),
        partial_spec(3_200_000_000, 200_000, p),
    ]
}

/// The design of an arcane attack.
pub open spec fn arcane_attack_spec(aa: ArcaneAttack) -> SoundDesignView {
    let p = confine_spec(aa.pitch_shift);
    let i = confine_spec(aa.intensity);
    SoundDesignView {
        layers: seq![
            // Shimmer: the mean of six detuned sines.
            LayerView {
                source: SourceView::Sines { partials: shimmer_spec(p), gain: 166_666 },
                envelope: Envelope::pluck_spec(
                    550_000,
                    40_000_000,
                    5_500_000,
                    scale_spec(150_000, i),
                ),
            },
            // Sparkle: stuttering noise around 6 kHz.
            LayerView {
                source: SourceView::BandNoise {
                    shape: BandShape { center: scale_spec(6_000_000_000, p), q: 2_000_000 },
                },
                envelope: Envelope {
                    cutoff: 600_000,
                    attack: Some(Ramp { delay: 0, rate: 80_000_000 }),
                    decay: Decay { delay: 0, rate: 4_500_000 },
                    stutter: Some(Stutter { first: 73_000_000, second: 113_000_000, third: None }),
                    gain: scale_spec(250_000, i),
                },
            },
            // Sweep: a sine rising from 300 Hz to 1800 Hz, with a 7 Hz vibrato
            // of 30 Hz; it holds its level for 0.35 s and then drops.
            LayerView {
                source: SourceView::SweptSine {
                    freq: Control::LinearSweep {
                        cutoff: 450_000,
                        from: scale_spec(300_000_000, p),
                        to: scale_spec(1_800_000_000, p),
                    },
                    vibrato_rate: scale_spec(7_000_000, p),
                    vibrato_depth: scale_spec(30_000_000, p),
                },
                envelope: Envelope {
                    cutoff: 450_000,
                    attack: Some(Ramp { delay: 0, rate: 30_000_000 }),
                    decay: Decay { delay: 350_000, rate: 20_000_000 },
                    stutter: None,
                    gain: scale_spec(120_000, i),
                },
            },
            // Wash: noise whose low-pass opens to 1200 Hz and closes again to 200 Hz.
            LayerView {
                source: SourceView::SweptNoise {
                    sweep: Control::Bell {
                        cutoff: 600_000,
                        floor: scale_spec(200_000_000, p),
                        peak: scale_spec(1_200_000_000, p),
                        center: 400_000,
                        sharpness: 12_000_000,
                    },
                },
                envelope: Envelope::pluck_spec(
                    600_000,
                    20_000_000,
                    3_500_000,
                    scale_spec(300_000, i),
                ),
            },
            // Bell: a third of the weighted sum of five partials.
            LayerView {
                source: SourceView::Sines { partials: bell_spec(p), gain: 333_333 },
                envelope: Envelope::pluck_spec(
                    400_000,
                    120_000_000,
                    8_000_000,
                    scale_spec(80_000, i),
                ),
            },
        ],
        lowpass: Some(aa.lowpass),
        reverb: reverb_send_spec(
            ReverbUnit::hall_spec(500_000, 1_000_000, 700_000, 3_500_000_000),
            aa.reverb_mix,
        ),
    }
}

/// A sine at `freq` hertz times the pitch, with the given weight.
fn partial(freq: i64, weight: i64, pitch: i64) -> (r: Partial)
    requires
        in_range(freq),
        in_range(pitch),
    ensures
        r == partial_spec(freq, weight, pitch),
{
    Partial { freq: scale(freq, pitch), weight }
}

/// The partials of the shimmer.
fn shimmer(pitch: i64) -> (v: Vec<Partial>)
    requires
        in_range(pitch),
    ensures
        v@ == shimmer_spec(pitch),
{
    let mut v: Vec<Partial> = Vec::new();
    v.push(partial(880_000_000, ONE, pitch));
    v.push(partial(882_545_840, ONE, pitch));
    v.push(partial(877_461_503, ONE, pitch));
    v.push(partial(1_320_000_000, ONE, pitch));
    v.push(partial(1_323_818_760, ONE, pitch));
    v.push(partial(1_316_192_255, ONE, pitch));
    assert(v@ =~= shimmer_spec(pitch));
    v
}

/// The partials of the bell.
fn bell(pitch: i64) -> (v: Vec<Partial>)
    requires
        in_range(pitch),
    ensures
        v@ == bell_spec(pitch),
{
    let mut v: Vec<Partial> = Vec::new();
    v.push(partial(1_320_000_000, ONE, pitch));
    v.push(partial(1_720_000_000, 800_000, pitch));
    v.push(partial(2_150_000_000, 600_000, pitch));
    v.push(partial(2_680_000_000, 400_000, pitch));
    v.push(partial(3_200_000_000, 200_000, pitch));
    assert(v@ =~= bell_spec(pitch));
    v
}

/// Lays out the design of an arcane attack.
pub fn arcane_attack_design(aa: &ArcaneAttack) -> (d: SoundDesign)
    ensures
        d@ == arcane_attack_spec(*aa),
{
    let level: i64 = confine(aa.intensity);
    let pitch: i64 = confine(aa.pitch_shift);
    let mut layers: Vec<Layer> = Vec::new();
    layers.push(
        Layer {
            source: Source::Sines { partials: shimmer(pitch), gain: 166_666 },
            envelope: Envelope::pluck(550_000, 40_000_000, 5_500_000, scale(150_000, level)),
        },
    );
    layers.push(
        Layer {
            source: Source::BandNoise {
                shape: BandShape { center: scale(6_000_000_000, pitch), q: 2_000_000 },
            },
            envelope: Envelope {
                cutoff: 600_000,
                attack: Some(Ramp { delay: 0, rate: 80_000_000 }),
                decay: Decay { delay: 0, rate: 4_500_000 },
                stutter: Some(Stutter { first: 73_000_000, second: 113_000_000, third: None }),
                gain: scale(250_000, level),
            },
        },
    );
    layers.push(
        Layer {
            source: Source::SweptSine {
                freq: Control::LinearSweep {
                    cutoff: 450_000,
                    from: scale(300_000_000, pitch),
                    to: scale(1_800_000_000, pitch),
                },
                vibrato_rate: scale(7_000_000, pitch),
                vibrato_depth: scale(30_000_000, pitch),
            },
            envelope: Envelope {
                cutoff: 450_000,
                attack: Some(Ramp { delay: 0, rate: 30_000_000 }),
                decay: Decay { delay: 350_000, rate: 20_000_000 },
                stutter: None,
                gain: scale(120_000, level),
            },
        },
    );
    layers.push(
        Layer {
            source: Source::SweptNoise {
                sweep: Control::Bell {
                    cutoff: 600_000,
                    floor: scale(200_000_000, pitch),
                    peak: scale(1_200_000_000, pitch),
                    center: 400_000,
                    sharpness: 12_000_000,
                },
            },
            envelope: Envelope::pluck(600_000, 20_000_000, 3_500_000, scale(300_000, level)),
        },
    );
    layers.push(
        Layer {
            source: Source::Sines { partials: bell(pitch), gain: 333_333 },
            envelope: Envelope::pluck(400_000, 120_000_000, 8_000_000, scale(80_000, level)),
        },
    );
    let d = SoundDesign {
        layers,
        lowpass: Some(aa.lowpass),
        reverb: reverb_send(
            ReverbUnit::hall(500_000, 1_000_000, 700_000, 3_500_000_000),
            aa.reverb_mix,
        ),
    };
    assert(d@.layers =~= arcane_attack_spec(*aa).layers);
    d
}

/// Builds the graph of an arcane attack.
pub fn build_arcane_attack_graph(aa: &ArcaneAttack) -> (g: Graph)
    ensures
        g@ == assemble_spec(arcane_attack_spec(*aa)),
        g@.wf(),
        g@.feed_forward(),
        g@.stereo_source(),
        output_signal(g@, 0) == design_signal(arcane_attack_spec(*aa), 0),
        output_signal(g@, 1) == design_signal(arcane_attack_spec(*aa), 1),
{
    let design = arcane_attack_design(aa);
    assemble(&design)
}

/// The slowest layers of an arcane attack are cut off after 0.6 seconds,
/// whatever the settings: after that every layer is silent.
pub proof fn lemma_arcane_attack_silence(aa: ArcaneAttack, i: int, t: int)
    requires
        0 <= i < 5,
        t > 600_000,
    ensures
        arcane_attack_spec(aa).layers.len() == 5,
        is_latest_cutoff(arcane_attack_spec(aa).layers, 600_000),
        arcane_attack_spec(aa).layers[i].envelope.silent_at(t),
{
    let layers = arcane_attack_spec(aa).layers;
    assert(layers[0].envelope.cutoff == 550_000);
    assert(layers[1].envelope.cutoff == 600_000);
    assert(layers[2].envelope.cutoff == 450_000);
    assert(layers[3].envelope.cutoff == 600_000);
    assert(layers[4].envelope.cutoff == 400_000);
}

} // verus!
