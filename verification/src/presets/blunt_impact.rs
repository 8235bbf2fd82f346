//! Blunt impact: a crack of noise, a low thud and an inharmonic clang.
//! All layers are silent after 0.2 s.

use vstd::prelude::*;
use crate::dsp::design::{
    assemble, assemble_spec, design_signal, is_latest_cutoff, lemma_dry_design_falls_silent,
    reverb_send, reverb_send_spec, Layer, LayerView, Partial,
    SoundDesign, SoundDesignView, Source, SourceView,
};
use crate::dsp::graph::Graph;
use crate::dsp::signal::{mute_at, output_signal};
use crate::dsp::unit::{Envelope, ReverbUnit};
use crate::fixed::{confine, confine_spec, in_range, scale, scale_spec, ONE};

verus! {

/// The settings of a blunt impact.
#[derive(Clone, Copy, Debug, PartialEq, Eq)]
pub struct BluntImpact {
    /// Overall loudness, nominally between 0 and 1.
    pub intensity: i64,
    /// Factor on every frequency: 1 is the normal pitch.
    pub pitch_shift: i64,
    /// Wet share of the reverb: 0 is dry, 1 fully wet.
    pub reverb_mix: i64,
}

impl Default for BluntImpact {
    fn default() -> (r: Self)
        ensures
            r == (BluntImpact { intensity: 800_000, pitch_shift: 1_000_000, reverb_mix: 0 }),
    {
        BluntImpact { intensity: 800_000, pitch_shift: 1_000_000, reverb_mix: 0 }
    }
}

/// A sine at `freq` hertz times the pitch, at full weight.
pub open spec fn tone_spec(freq: i64, pitch: i64) -> Partial {
    Partial { freq: scale_spec(freq, pitch), weight: ONE }
}

/// The design of a blunt impact.
pub open spec fn blunt_impact_spec(bi: BluntImpact) -> SoundDesignView {
    let p = confine_spec(bi.pitch_shift);
    let i = confine_spec(bi.intensity);
    SoundDesignView {
        layers: seq![
            // Crack: noise below 5 kHz.
            LayerView {
                source: SourceView::LowNoise { cutoff: scale_spec(5_000_000_000, p), steep: false },
                envelope: Envelope::pluck_spec(
                    100_000,
                    500_000_000,
                    35_000_000,
                    scale_spec(500_000, i),
                ),
            },
            // Thud: 45 Hz and its octave.
            LayerView {
                source: SourceView::Sines {
                    partials: seq![tone_spec(45_000_000, p), tone_spec(90_000_000, p)],
                    gain: ONE,
                },
                envelope: Envelope::pluck_spec(
                    150_000,
                    200_000_000,
                    20_000_000,
                    scale_spec(350_000, i),
                ),
            },
            // Clang: four inharmonic partials.
            LayerView {
                source: SourceView::Sines {
                    partials: seq![
                        tone_spec(780_000_000, p),
                        tone_spec(1_850_000_000, p),
                        tone_spec(3_100_000_000, p),
                        tone_spec(4_700_000_000, p),
                    ],
                    gain: ONE,
                },
                envelope: Envelope::pluck_spec(
                    200_000,
                    500_000_000,
                    18_000_000,
                    scale_spec(80_000, i),
                ),
            },
        ],
        lowpass: None,
        reverb: reverb_send_spec(
            ReverbUnit::hall_spec(400_000, 800_000, 500_000, 4_000_000_000),
            bi.reverb_mix,
        ),
    }
}

/// A sine at `freq` hertz times the pitch, at full weight.
fn tone(freq: i64, pitch: i64) -> (t: Partial)
    requires
        in_range(freq),
        in_range(pitch),
    ensures
        t == tone_spec(freq, pitch),
{
    Partial { freq: scale(freq, pitch), weight: ONE }
}

/// Lays out the design of a blunt impact.
pub fn blunt_impact_design(bi: &BluntImpact) -> (d: SoundDesign)
    ensures
        d@ == blunt_impact_spec(*bi),
{
    let level: i64 = confine(bi.intensity);
    let pitch: i64 = confine(bi.pitch_shift);

    let mut thud: Vec<Partial> = Vec::new();
    thud.push(tone(45_000_000, pitch));
    thud.push(tone(90_000_000, pitch));
    assert(thud@ =~= seq![tone_spec(45_000_000, pitch), tone_spec(90_000_000, pitch)]);

    let mut clang: Vec<Partial> = Vec::new();
    clang.push(tone(780_000_000, pitch));
    clang.push(tone(1_850_000_000, pitch));
    clang.push(tone(3_100_000_000, pitch));
    clang.push(tone(4_700_000_000, pitch));
    assert(clang@ =~= seq![
        tone_spec(780_000_000, pitch),
        tone_spec(1_850_000_000, pitch),
        tone_spec(3_100_000_000, pitch),
        tone_spec(4_700_000_000, pitch),
    ]);

    let mut layers: Vec<Layer> = Vec::new();
    layers.push(
        Layer {
            source: Source::LowNoise { cutoff: scale(5_000_000_000, pitch), steep: false },
            envelope: Envelope::pluck(100_000, 500_000_000, 35_000_000, scale(500_000, level)),
        },
    );
    layers.push(
        Layer {
            source: Source::Sines { partials: thud, gain: ONE },
            envelope: Envelope::pluck(150_000, 200_000_000, 20_000_000, scale(350_000, level)),
        },
    );
    layers.push(
        Layer {
            source: Source::Sines { partials: clang, gain: ONE },
            envelope: Envelope::pluck(200_000, 500_000_000, 18_000_000, scale(80_000, level)),
        },
    );
    let d = SoundDesign {
        layers,
        lowpass: None,
        reverb: reverb_send(
            ReverbUnit::hall(400_000, 800_000, 500_000, 4_000_000_000),
            bi.reverb_mix,
        ),
    };
    assert(d@.layers =~= blunt_impact_spec(*bi).layers);
    d
}

/// Builds the graph of a blunt impact.
pub fn build_blunt_impact_graph(bi: &BluntImpact) -> (g: Graph)
    ensures
        g@ == assemble_spec(blunt_impact_spec(*bi)),
        g@.wf(),
        g@.feed_forward(),
        g@.stereo_source(),
        output_signal(g@, 0) == design_signal(blunt_impact_spec(*bi), 0),
        output_signal(g@, 1) == design_signal(blunt_impact_spec(*bi), 1),
{
    let design = blunt_impact_design(bi);
    assemble(&design)
}

/// The slowest layer of a blunt impact is cut off after 0.2 seconds,
/// whatever the settings: after that every layer is silent.
pub proof fn lemma_blunt_impact_silence(bi: BluntImpact, i: int, t: int)
    requires
        0 <= i < 3,
        t > 200_000,
    ensures
        blunt_impact_spec(bi).layers.len() == 3,
        is_latest_cutoff(blunt_impact_spec(bi).layers, 200_000),
        blunt_impact_spec(bi).layers[i].envelope.silent_at(t),
{
    let layers = blunt_impact_spec(bi).layers;
    assert(layers[0].envelope.cutoff == 100_000);
    assert(layers[1].envelope.cutoff == 150_000);
    assert(layers[2].envelope.cutoff == 200_000);
}

/// Without reverb, a blunt impact is exactly 0 on both channels after
/// 0.2 seconds.
pub proof fn lemma_blunt_impact_falls_silent(bi: BluntImpact, channel: usize, t: int)
    requires
        bi.reverb_mix <= 0,
        t > 200_000,
    ensures
        mute_at(design_signal(blunt_impact_spec(bi), channel), t),
{
    lemma_blunt_impact_silence(bi, 0, t);
    lemma_dry_design_falls_silent(blunt_impact_spec(bi), 200_000, channel, t);
}

} // verus!
