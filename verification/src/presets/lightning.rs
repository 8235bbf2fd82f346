//! Lightning: the short zap of an arc, and the strike with its thunder.
//!
//! The zap is three bands of noise that stutter erratically; all are silent
//! after 0.55 s.  The strike is a crack, a boom, a body of noise and a
//! crackle; all are silent after 2.5 s.

use vstd::prelude::*;
use crate::dsp::design::{
    assemble, assemble_spec, design_signal, is_latest_cutoff, lemma_dry_design_falls_silent,
    reverb_send, reverb_send_spec, Layer, LayerView, SoundDesign,
    SoundDesignView, Source, SourceView,
};
use crate::dsp::graph::Graph;
use crate::dsp::signal::{mute_at, output_signal};
use crate::dsp::unit::{BandShape, Control, Decay, Envelope, ReverbUnit, Stutter};
use crate::fixed::{confine, confine_spec, scale, scale_spec};

verus! {

/// The settings of a lightning zap.
#[derive(Clone, Copy, Debug, PartialEq, Eq)]
pub struct LightningZap {
    /// Overall loudness, nominally between 0 and 1.
    pub intensity: i64,
    /// Factor on every frequency: 1 is the normal pitch.
    pub pitch_shift: i64,
    /// Wet share of the reverb: 0 is dry, 1 fully wet.
    pub reverb_mix: i64,
}

impl Default for LightningZap {
    fn default() -> (r: Self)
        ensures
            r == (LightningZap { intensity: 800_000, pitch_shift: 1_000_000, reverb_mix: 0 }),
    {
        LightningZap { intensity: 800_000, pitch_shift: 1_000_000, reverb_mix: 0 }
    }
}

/// A band of noise that stutters while it dies away.
pub open spec fn sizzle_spec(
    center: i64,
    q: i64,
    cutoff: i64,
    stutter: Stutter,
    decay: i64,
    gain: i64,
) -> LayerView {
    LayerView {
        source: SourceView::BandNoise { shape: BandShape { center, q } },
        envelope: Envelope {
            cutoff,
            attack: None,
            decay: Decay { delay: 0, rate: decay },
            stutter: Some(stutter),
            gain,
        },
    }
}

/// The design of a lightning zap.
pub open spec fn lightning_zap_spec(zap: LightningZap) -> SoundDesignView {
    let p = confine_spec(zap.pitch_shift);
    let i = confine_spec(zap.intensity);
    SoundDesignView {
        layers: seq![
            // Core: noise around 5 kHz.
            sizzle_spec(
                scale_spec(5_000_000_000, p),
                1_500_000,
                550_000,
                Stutter { first: 127_300_000, second: 89_700_000, third: Some(211_100_000) },
                3_500_000,
                scale_spec(650_000, i),
            ),
            // Sizzle: noise around 7 kHz.
            sizzle_spec(
                scale_spec(7_000_000_000, p),
                1_000_000,
                500_000,
                Stutter { first: 173_900_000, second: 67_300_000, third: None },
                4_000_000,
                scale_spec(400_000, i),
            ),
            // Crackle: noise around 3.5 kHz.
            sizzle_spec(
                scale_spec(3_500_000_000, p),
                1_500_000,
                500_000,
                Stutter { first: 151_700_000, second: 103_300_000, third: Some(197_900_000) },
                3_000_000,
                scale_spec(350_000, i),
            ),
        ],
        lowpass: None,
        reverb: reverb_send_spec(
            ReverbUnit::hall_spec(200_000, 400_000, 300_000, 8_000_000_000),
            zap.reverb_mix,
        ),
    }
}

/// A band of noise that stutters while it dies away.
fn sizzle(center: i64, q: i64, cutoff: i64, stutter: Stutter, decay: i64, gain: i64) -> (l: Layer)
    ensures
        l@ == sizzle_spec(center, q, cutoff, stutter, decay, gain),
{
    Layer {
        source: Source::BandNoise { shape: BandShape { center, q } },
        envelope: Envelope {
            cutoff,
            attack: None,
            decay: Decay { delay: 0, rate: decay },
            stutter: Some(stutter),
            gain,
        },
    }
}

/// Lays out the design of a lightning zap.
pub fn lightning_zap_design(zap: &LightningZap) -> (d: SoundDesign)
    ensures
        d@ == lightning_zap_spec(*zap),
{
    let level: i64 = confine(zap.intensity);
    let pitch: i64 = confine(zap.pitch_shift);
    let mut layers: Vec<Layer> = Vec::new();
    layers.push(
        sizzle(
            scale(5_000_000_000, pitch),
            1_500_000,
            550_000,
            Stutter { first: 127_300_000, second: 89_700_000, third: Some(211_100_000) },
            3_500_000,
            scale(650_000, level),
        ),
    );
    layers.push(
        sizzle(
            scale(7_000_000_000, pitch),
            1_000_000,
            500_000,
            Stutter { first: 173_900_000, second: 67_300_000, third: None },
            4_000_000,
            scale(400_000, level),
        ),
    );
    layers.push(
        sizzle(
            scale(3_500_000_000, pitch),
            1_500_000,
            500_000,
            Stutter { first: 151_700_000, second: 103_300_000, third: Some(197_900_000) },
            3_000_000,
            scale(350_000, level),
        ),
    );
    let d = SoundDesign {
        layers,
        lowpass: None,
        reverb: reverb_send(
            ReverbUnit::hall(200_000, 400_000, 300_000, 8_000_000_000),
            zap.reverb_mix,
        ),
    };
    assert(d@.layers =~= lightning_zap_spec(*zap).layers);
    d
}

/// Builds the graph of a lightning zap.
pub fn build_lightning_zap_graph(zap: &LightningZap) -> (g: Graph)
    ensures
        g@ == assemble_spec(lightning_zap_spec(*zap)),
        g@.wf(),
        g@.feed_forward(),
        g@.stereo_source(),
        output_signal(g@, 0) == design_signal(lightning_zap_spec(*zap), 0),
        output_signal(g@, 1) == design_signal(lightning_zap_spec(*zap), 1),
{
    let design = lightning_zap_design(zap);
    assemble(&design)
}

/// The settings of a lightning strike.
#[derive(Clone, Copy, Debug, PartialEq, Eq)]
pub struct LightningStrike {
    /// Overall loudness, nominally between 0 and 1.
    pub intensity: i64,
    /// Factor on every frequency: 1 is the normal pitch.
    pub pitch_shift: i64,
    /// Wet share of the reverb: 0 is dry, 1 fully wet.
    pub reverb_mix: i64,
}

impl Default for LightningStrike {
    fn default() -> (r: Self)
        ensures
            r == (LightningStrike { intensity: 800_000, pitch_shift: 1_000_000, reverb_mix: 150_000 }),
    {
        LightningStrike { intensity: 800_000, pitch_shift: 1_000_000, reverb_mix: 150_000 }
    }
}

/// The design of a lightning strike.
pub open spec fn lightning_strike_spec(ls: LightningStrike) -> SoundDesignView {
    let p = confine_spec(ls.pitch_shift);
    let i = confine_spec(ls.intensity);
    SoundDesignView {
        layers: seq![
            // Crack: the full spectrum, for an instant.
            LayerView {
                source: SourceView::Noise,
                envelope: Envelope::pluck_spec(
                    150_000,
                    5_000_000_000,
                    20_000_000,
                    scale_spec(500_000, i),
                ),
            },
            // Boom: noise below 80 Hz, steeply filtered.
            LayerView {
                source: SourceView::LowNoise { cutoff: scale_spec(80_000_000, p), steep: true },
                envelope: Envelope::pluck_spec(
                    2_500_000,
                    100_000_000,
                    1_200_000,
                    scale_spec(700_000, i),
                ),
            },
            // Body: noise below 400 Hz.
            LayerView {
                source: SourceView::LowNoise { cutoff: scale_spec(400_000_000, p), steep: false },
                envelope: Envelope::pluck_spec(
                    1_500_000,
                    200_000_000,
                    2_000_000,
                    scale_spec(300_000, i),
                ),
            },
            // Crackle: 1800 Hz carrier, 1270 Hz modulator, index 30.
            LayerView {
                source: SourceView::Fm {
                    carrier: scale_spec(1_800_000_000, p),
                    modulator: scale_spec(1_270_000_000, p),
                    index: Control::ExpSweep {
                        base: 0,
                        range: scale_spec(38_100_000_000, p),
                        rate: 6_000_000,
                    },
                },
                envelope: Envelope::pluck_spec(
                    800_000,
                    1_000_000_000,
                    4_000_000,
                    scale_spec(60_000, i),
                ),
            },
        ],
        lowpass: None,
        reverb: reverb_send_spec(
            ReverbUnit::hall_spec(600_000, 1_500_000, 500_000, 2_000_000_000),
            ls.reverb_mix,
        ),
    }
}

/// Lays out the design of a lightning strike.
pub fn lightning_strike_design(ls: &LightningStrike) -> (d: SoundDesign)
    ensures
        d@ == lightning_strike_spec(*ls),
{
    let level: i64 = confine(ls.intensity);
    let pitch: i64 = confine(ls.pitch_shift);
    let mut layers: Vec<Layer> = Vec::new();
    layers.push(
        Layer {
            source: Source::Noise,
            envelope: Envelope::pluck(150_000, 5_000_000_000, 20_000_000, scale(500_000, level)),
        },
    );
    layers.push(
        Layer {
            source: Source::LowNoise { cutoff: scale(80_000_000, pitch), steep: true },
            envelope: Envelope::pluck(2_500_000, 100_000_000, 1_200_000, scale(700_000, level)),
        },
    );
    layers.push(
        Layer {
            source: Source::LowNoise { cutoff: scale(400_000_000, pitch), steep: false },
            envelope: Envelope::pluck(1_500_000, 200_000_000, 2_000_000, scale(300_000, level)),
        },
    );
    layers.push(
        Layer {
            source: Source::Fm {
                carrier: scale(1_800_000_000, pitch),
                modulator: scale(1_270_000_000, pitch),
                index: Control::ExpSweep {
                    base: 0,
                    range: scale(38_100_000_000, pitch),
                    rate: 6_000_000,
                },
            },
            envelope: Envelope::pluck(800_000, 1_000_000_000, 4_000_000, scale(60_000, level)),
        },
    );
    let d = SoundDesign {
        layers,
        lowpass: None,
        reverb: reverb_send(
            ReverbUnit::hall(600_000, 1_500_000, 500_000, 2_000_000_000),
            ls.reverb_mix,
        ),
    };
    assert(d@.layers =~= lightning_strike_spec(*ls).layers);
    d
}

/// Builds the graph of a lightning strike.
pub fn build_lightning_strike_graph(ls: &LightningStrike) -> (g: Graph)
    ensures
        g@ == assemble_spec(lightning_strike_spec(*ls)),
        g@.wf(),
        g@.feed_forward(),
        g@.stereo_source(),
        output_signal(g@, 0) == design_signal(lightning_strike_spec(*ls), 0),
        output_signal(g@, 1) == design_signal(lightning_strike_spec(*ls), 1),
{
    let design = lightning_strike_design(ls);
    assemble(&design)
}

/// The slowest layer of a lightning zap is cut off after 0.55 seconds,
/// whatever the settings: after that every layer is silent.
pub proof fn lemma_lightning_zap_silence(zap: LightningZap, i: int, t: int)
    requires
        0 <= i < 3,
        t > 550_000,
    ensures
        lightning_zap_spec(zap).layers.len() == 3,
        is_latest_cutoff(lightning_zap_spec(zap).layers, 550_000),
        lightning_zap_spec(zap).layers[i].envelope.silent_at(t),
{
    let layers = lightning_zap_spec(zap).layers;
    assert(layers[0].envelope.cutoff == 550_000);
    assert(layers[1].envelope.cutoff == 500_000);
    assert(layers[2].envelope.cutoff == 500_000);
}

/// The slowest layer of a lightning strike is cut off after 2.5 seconds,
/// whatever the settings: after that every layer is silent.
pub proof fn lemma_lightning_strike_silence(ls: LightningStrike, i: int, t: int)
    requires
        0 <= i < 4,
        t > 2_500_000,
    ensures
        lightning_strike_spec(ls).layers.len() == 4,
        is_latest_cutoff(lightning_strike_spec(ls).layers, 2_500_000),
        lightning_strike_spec(ls).layers[i].envelope.silent_at(t),
{
    let layers = lightning_strike_spec(ls).layers;
    assert(layers[0].envelope.cutoff == 150_000);
    assert(layers[1].envelope.cutoff == 2_500_000);
    assert(layers[2].envelope.cutoff == 1_500_000);
    assert(layers[3].envelope.cutoff == 800_000);
}

/// Without reverb, a lightning zap is exactly 0 on both channels after
/// 0.55 seconds.
pub proof fn lemma_lightning_zap_falls_silent(zap: LightningZap, channel: usize, t: int)
    requires
        zap.reverb_mix <= 0,
        t > 550_000,
    ensures
        mute_at(design_signal(lightning_zap_spec(zap), channel), t),
{
    lemma_lightning_zap_silence(zap, 0, t);
    lemma_dry_design_falls_silent(lightning_zap_spec(zap), 550_000, channel, t);
}

/// Without reverb, a lightning strike is exactly 0 on both channels after
/// 2.5 seconds.
pub proof fn lemma_lightning_strike_falls_silent(ls: LightningStrike, channel: usize, t: int)
    requires
        ls.reverb_mix <= 0,
        t > 2_500_000,
    ensures
        mute_at(design_signal(lightning_strike_spec(ls), channel), t),
{
    lemma_lightning_strike_silence(ls, 0, t);
    lemma_dry_design_falls_silent(lightning_strike_spec(ls), 2_500_000, channel, t);
}

} // verus!
