//! Explosion: a blast, a tonal boom, a rumble, a body of noise, a whoosh and
//! a crackle of debris, under two low-pass poles.
//!
//! The pitch also sets the pace: every decay runs `sqrt(pitch_shift)` times
//! as fast, and every cutoff comes that much sooner.

use vstd::prelude::*;
use crate::dsp::design::{
    assemble, assemble_spec, design_signal, is_latest_cutoff, reverb_send, reverb_send_spec, Layer, LayerView, Partial,
    SoundDesign, SoundDesignView, Source, SourceView,
};
use crate::dsp::graph::Graph;
use crate::dsp::signal::output_signal;
use crate::dsp::unit::{BandShape, Control, Decay, Envelope, Ramp, ReverbUnit, Stutter};
use crate::fixed::{
    confine, confine_positive, confine_positive_spec, confine_spec, in_range, is_sqrt, lemma_sqrt_exists, lemma_sqrt_unique, lemma_square_monotone, ratio,
    ratio_spec, scale, scale_spec, sqrt, sqrt_spec, LIMIT, ONE,
};
use vstd::arithmetic::div_mod::lemma_div_is_ordered;

verus! {

/// The settings of an explosion.
#[derive(Clone, Copy, Debug, PartialEq, Eq)]
pub struct Explosion {
    /// Overall loudness, nominally between 0 and 1.
    pub intensity: i64,
    /// Factor on every frequency: 1 is the normal pitch, less a deeper and
    /// slower blast, more a quick fireball.
    pub pitch_shift: i64,
    /// Wet share of the reverb: 0 is dry, 1 fully wet.
    pub reverb_mix: i64,
    /// Cutoff in hertz of the low-pass on the whole sound.
    pub lowpass: i64,
}

impl Default for Explosion {
    fn default() -> (r: Self)
        ensures
            r == (Explosion {
                intensity: 800_000,
                pitch_shift: 1_000_000,
                reverb_mix: 100_000,
                lowpass: 20_000_000_000,
            }),
    {
        Explosion {
            intensity: 800_000,
            pitch_shift: 1_000_000,
            reverb_mix: 100_000,
            lowpass: 20_000_000_000,
        }
    }
}

/// An envelope whose pace follows `pace`: it is cut off after `cutoff / pace`
/// and decays at `decay * pace`.
pub open spec fn paced_spec(
    cutoff: i64,
    attack: Ramp,
    decay: i64,
    stutter: Option<Stutter>,
    gain: i64,
    pace: i64,
) -> Envelope {
    Envelope {
        cutoff: ratio_spec(cutoff, pace),
        attack: Some(attack),
        decay: Decay { delay: 0, rate: scale_spec(decay, pace) },
        stutter,
        gain,
    }
}

/// The design of an explosion.
pub open spec fn explosion_spec(ex: Explosion) -> SoundDesignView {
    let p = confine_positive_spec(ex.pitch_shift);
    let i = confine_spec(ex.intensity);
    let pace = pace_spec(ex);
    SoundDesignView {
        layers: seq![
            // Blast: noise below 3 kHz.
            LayerView {
                source: SourceView::LowNoise { cutoff: scale_spec(3_000_000_000, p), steep: false },
                envelope: paced_spec(
                    200_000,
                    Ramp { delay: 0, rate: 5_000_000_000 },
                    18_000_000,
                    None,
                    scale_spec(200_000, i),
                    pace,
                ),
            },
            // Boom: 80 Hz and, half as loud, 130 Hz.
            LayerView {
                source: SourceView::Sines {
                    partials: seq![
                        Partial { freq: scale_spec(80_000_000, p), weight: ONE },
                        Partial { freq: scale_spec(130_000_000, p), weight: 500_000 },
                    ],
                    gain: ONE,
                },
                envelope: paced_spec(
                    2_500_000,
                    Ramp { delay: 0, rate: 60_000_000 },
                    1_500_000,
                    None,
                    scale_spec(120_000, i),
                    pace,
                ),
            },
            // Rumble: noise below 250 Hz, steeply filtered.
            LayerView {
                source: SourceView::LowNoise { cutoff: scale_spec(250_000_000, p), steep: true },
                envelope: paced_spec(
                    3_000_000,
                    Ramp { delay: 0, rate: 80_000_000 },
                    1_000_000,
                    None,
                    scale_spec(600_000, i),
                    pace,
                ),
            },
            // Body: noise below 800 Hz.
            LayerView {
                source: SourceView::LowNoise { cutoff: scale_spec(800_000_000, p), steep: false },
                envelope: paced_spec(
                    1_500_000,
                    Ramp { delay: 0, rate: 150_000_000 },
                    2_500_000,
                    None,
                    scale_spec(400_000, i),
                    pace,
                ),
            },
            // Whoosh: noise whose low-pass closes from 4 kHz to 200 Hz.
            LayerView {
                source: SourceView::SweptNoise {
                    sweep: Control::ExpSweep {
                        base: scale_spec(200_000_000, p),
                        range: (scale_spec(4_000_000_000, p) - scale_spec(200_000_000, p)) as i64,
                        rate: scale_spec(3_000_000, pace),
                    },
                },
                envelope: paced_spec(
                    1_500_000,
                    Ramp { delay: 20_000, rate: 60_000_000 },
                    2_000_000,
                    None,
                    scale_spec(350_000, i),
                    pace,
                ),
            },
            // Crackle: stuttering noise around 5 kHz.
            LayerView {
                source: SourceView::BandNoise {
                    shape: BandShape { center: scale_spec(5_000_000_000, p), q: 1_500_000 },
                },
                envelope: paced_spec(
                    1_800_000,
                    Ramp { delay: 50_000, rate: 20_000_000 },
                    2_000_000,
                    Some(Stutter { first: 97_300_000, second: 143_700_000, third: None }),
                    scale_spec(40_000, i),
                    pace,
                ),
            },
        ],
        lowpass: Some(ex.lowpass),
        reverb: reverb_send_spec(
            ReverbUnit::hall_spec(600_000, 1_500_000, 500_000, 2_500_000_000),
            ex.reverb_mix,
        ),
    }
}

/// An envelope whose pace follows `pace`.
fn paced(
    cutoff: i64,
    attack: Ramp,
    decay: i64,
    stutter: Option<Stutter>,
    gain: i64,
    pace: i64,
) -> (e: Envelope)
    requires
        0 <= cutoff <= LIMIT,
        in_range(decay),
        0 < pace <= LIMIT,
    ensures
        e == paced_spec(cutoff, attack, decay, stutter, gain, pace),
{
    Envelope {
        cutoff: ratio(cutoff, pace),
        attack: Some(attack),
        decay: Decay { delay: 0, rate: scale(decay, pace) },
        stutter,
        gain,
    }
}

/// Lays out the design of an explosion.
pub fn explosion_design(ex: &Explosion) -> (d: SoundDesign)
    ensures
        d@ == explosion_spec(*ex),
{
    let level: i64 = confine(ex.intensity);
    let pitch: i64 = confine_positive(ex.pitch_shift);
    let pace: i64 = sqrt(pitch);

    let mut boom: Vec<Partial> = Vec::new();
    boom.push(Partial { freq: scale(80_000_000, pitch), weight: ONE });
    boom.push(Partial { freq: scale(130_000_000, pitch), weight: 500_000 });
    assert(boom@ =~= seq![
        Partial { freq: scale_spec(80_000_000, pitch), weight: ONE },
        Partial { freq: scale_spec(130_000_000, pitch), weight: 500_000 },
    ]);

    let whoosh_hi: i64 = scale(4_000_000_000, pitch);
    let whoosh_lo: i64 = scale(200_000_000, pitch);

    let mut layers: Vec<Layer> = Vec::new();
    layers.push(
        Layer {
            source: Source::LowNoise { cutoff: scale(3_000_000_000, pitch), steep: false },
            envelope: paced(
                200_000,
                Ramp { delay: 0, rate: 5_000_000_000 },
                18_000_000,
                None,
                scale(200_000, level),
                pace,
            ),
        },
    );
    layers.push(
        Layer {
            source: Source::Sines { partials: boom, gain: ONE },
            envelope: paced(
                2_500_000,
                Ramp { delay: 0, rate: 60_000_000 },
                1_500_000,
                None,
                scale(120_000, level),
                pace,
            ),
        },
    );
    layers.push(
        Layer {
            source: Source::LowNoise { cutoff: scale(250_000_000, pitch), steep: true },
            envelope: paced(
                3_000_000,
                Ramp { delay: 0, rate: 80_000_000 },
                1_000_000,
                None,
                scale(600_000, level),
                pace,
            ),
        },
    );
    layers.push(
        Layer {
            source: Source::LowNoise { cutoff: scale(800_000_000, pitch), steep: false },
            envelope: paced(
                1_500_000,
                Ramp { delay: 0, rate: 150_000_000 },
                2_500_000,
                None,
                scale(400_000, level),
                pace,
            ),
        },
    );
    layers.push(
        Layer {
            source: Source::SweptNoise {
                sweep: Control::ExpSweep {
                    base: whoosh_lo,
                    range: whoosh_hi - whoosh_lo,
                    rate: scale(3_000_000, pace),
                },
            },
            envelope: paced(
                1_500_000,
                Ramp { delay: 20_000, rate: 60_000_000 },
                2_000_000,
                None,
                scale(350_000, level),
                pace,
            ),
        },
    );
    layers.push(
        Layer {
            source: Source::BandNoise {
                shape: BandShape { center: scale(5_000_000_000, pitch), q: 1_500_000 },
            },
            envelope: paced(
                1_800_000,
                Ramp { delay: 50_000, rate: 20_000_000 },
                2_000_000,
                Some(Stutter { first: 97_300_000, second: 143_700_000, third: None }),
                scale(40_000, level),
                pace,
            ),
        },
    );
    let d = SoundDesign {
        layers,
        lowpass: Some(ex.lowpass),
        reverb: reverb_send(
            ReverbUnit::hall(600_000, 1_500_000, 500_000, 2_500_000_000),
            ex.reverb_mix,
        ),
    };
    assert(d@.layers =~= explosion_spec(*ex).layers);
    d
}

/// Builds the graph of an explosion.
pub fn build_explosion_graph(ex: &Explosion) -> (g: Graph)
    ensures
        g@ == assemble_spec(explosion_spec(*ex)),
        g@.wf(),
        g@.feed_forward(),
        g@.stereo_source(),
        output_signal(g@, 0) == design_signal(explosion_spec(*ex), 0),
        output_signal(g@, 1) == design_signal(explosion_spec(*ex), 1),
{
    let design = explosion_design(ex);
    assemble(&design)
}

/// The pace of an explosion: the square root of its pitch, which counts as
/// at least one millionth and at most a million.
pub open spec fn pace_spec(ex: Explosion) -> i64 {
    sqrt_spec(confine_positive_spec(ex.pitch_shift))
}

/// The slowest layer of an explosion, the rumble, is cut off after 3
/// seconds over the pace: after that every layer is silent.  At the normal
/// pitch that is 3 seconds.
pub proof fn lemma_explosion_silence(ex: Explosion, i: int, t: int)
    requires
        0 <= i < 6,
        t > ratio_spec(3_000_000, pace_spec(ex)),
    ensures
        explosion_spec(ex).layers.len() == 6,
        is_latest_cutoff(explosion_spec(ex).layers, ratio_spec(3_000_000, pace_spec(ex))),
        explosion_spec(ex).layers[i].envelope.silent_at(t),
        ex.pitch_shift == ONE ==> ratio_spec(3_000_000, pace_spec(ex)) == 3_000_000,
{
    let pace = pace_spec(ex);
    lemma_pace(confine_positive_spec(ex.pitch_shift));
    let layers = explosion_spec(ex).layers;
    lemma_cutoffs_ordered(200_000, pace);
    lemma_cutoffs_ordered(2_500_000, pace);
    lemma_cutoffs_ordered(3_000_000, pace);
    lemma_cutoffs_ordered(1_500_000, pace);
    lemma_cutoffs_ordered(1_800_000, pace);
    assert(layers[0].envelope.cutoff == ratio_spec(200_000, pace));
    assert(layers[1].envelope.cutoff == ratio_spec(2_500_000, pace));
    assert(layers[2].envelope.cutoff == ratio_spec(3_000_000, pace));
    assert(layers[3].envelope.cutoff == ratio_spec(1_500_000, pace));
    assert(layers[4].envelope.cutoff == ratio_spec(1_500_000, pace));
    assert(layers[5].envelope.cutoff == ratio_spec(1_800_000, pace));
    if ex.pitch_shift == ONE {
        lemma_sqrt_unique(ONE as int, ONE as int, pace as int);
    }
}

/// The square root of a positive pitch of the working range is at least a
/// thousandth and at most a thousand.
pub proof fn lemma_pace(pitch: i64)
    requires
        0 < pitch <= LIMIT,
    ensures
        is_sqrt(pitch as int, sqrt_spec(pitch) as int),
        1_000 <= sqrt_spec(pitch) <= 1_000_000_000,
{
    // Some number is the root: the largest whose square does not exceed the pitch.
    lemma_sqrt_exists(pitch);
    let r = sqrt_spec(pitch) as int;
    if r < 1_000 {
        lemma_square_monotone(r, 1_000);
    }
    if r > 1_000_000_000 {
        lemma_square_monotone(1_000_000_000, r);
    }
}

/// A cutoff of at most three seconds at the normal pace comes no later than
/// the cutoff of three seconds does, at any pace.
pub proof fn lemma_cutoffs_ordered(cutoff: i64, pace: i64)
    requires
        0 <= cutoff <= 3_000_000,
        1_000 <= pace,
    ensures
        0 <= ratio_spec(cutoff, pace) <= ratio_spec(3_000_000, pace) <= 3_000_000_000,
{
    lemma_div_is_ordered(cutoff * ONE, 3_000_000 * ONE, pace as int);
    assert((cutoff * ONE) / (pace as int) >= 0) by (nonlinear_arith)
        requires
            cutoff >= 0,
            pace > 0,
    ;
    assert((3_000_000 * ONE) / (pace as int) <= 3_000_000_000) by (nonlinear_arith)
        requires
            pace >= 1_000,
    ;
}

} // verus!
