//! Sword slash: three frequency-modulated metal voices over a burst of noise
//! whose low-pass closes as it fades.  All layers are silent after 1.2 s.

use vstd::prelude::*;
use crate::dsp::design::{
    assemble, assemble_spec, design_signal, is_latest_cutoff, lemma_dry_design_falls_silent,
    reverb_send, reverb_send_spec, Layer, LayerView, SoundDesign,
    SoundDesignView, Source, SourceView,
};
use crate::dsp::graph::Graph;
use crate::dsp::signal::{mute_at, output_signal};
use crate::dsp::unit::{Control, Envelope, ReverbUnit};
use crate::fixed::{confine, confine_spec, scale, scale_spec};

verus! {

/// The settings of a sword slash.
#[derive(Clone, Copy, Debug, PartialEq, Eq)]
pub struct SwordSlash {
    /// Overall loudness, nominally between 0 and 1.
    pub intensity: i64,
    /// Factor on every frequency: 1 is the normal pitch.
    pub pitch_shift: i64,
    /// Wet share of the reverb: 0 is dry, 1 fully wet.
    pub reverb_mix: i64,
}

impl Default for SwordSlash {
    fn default() -> (r: Self)
        ensures
            r == (SwordSlash { intensity: 800_000, pitch_shift: 1_000_000, reverb_mix: 0 }),
    {
        SwordSlash { intensity: 800_000, pitch_shift: 1_000_000, reverb_mix: 0 }
    }
}

/// A metal voice: a carrier whose frequency a modulator swings by an index
/// that dies away at `index_decay` per second.
pub open spec fn voice_spec(
    carrier: i64,
    modulator: i64,
    index: i64,
    index_decay: i64,
    envelope: Envelope,
) -> LayerView {
    LayerView {
        source: SourceView::Fm {
            carrier,
            modulator,
            index: Control::ExpSweep { base: 0, range: index, rate: index_decay },
        },
        envelope,
    }
}

/// The design of a sword slash.
pub open spec fn sword_slash_spec(ss: SwordSlash) -> SoundDesignView {
    let p = confine_spec(ss.pitch_shift);
    let i = confine_spec(ss.intensity);
    SoundDesignView {
        layers: seq![
            // Low body: 720 Hz carrier, 487 Hz modulator, index 20.
            voice_spec(
                scale_spec(720_000_000, p),
                scale_spec(487_000_000, p),
                scale_spec(9_740_000_000, p),
                3_000_000,
                Envelope::pluck_spec(1_200_000, 500_000_000, 6_000_000, scale_spec(20_000, i)),
            ),
            // Mid presence: 2100 Hz carrier, 1430 Hz modulator, index 18.
            voice_spec(
                scale_spec(2_100_000_000, p),
                scale_spec(1_430_000_000, p),
                scale_spec(25_740_000_000, p),
                5_000_000,
                Envelope::pluck_spec(600_000, 500_000_000, 10_000_000, scale_spec(15_000, i)),
            ),
            // High shimmer: 4200 Hz carrier, 2870 Hz modulator, index 12.
            voice_spec(
                scale_spec(4_200_000_000, p),
                scale_spec(2_870_000_000, p),
                scale_spec(34_440_000_000, p),
                8_000_000,
                Envelope::pluck_spec(300_000, 500_000_000, 15_000_000, scale_spec(8_000, i)),
            ),
            // Noise whose low-pass closes from 10 kHz to 300 Hz.
            LayerView {
                source: SourceView::SweptNoise {
                    sweep: Control::ExpSweep {
                        base: scale_spec(300_000_000, p),
                        range: scale_spec(9_700_000_000, p),
                        rate: 8_000_000,
                    },
                },
                envelope: Envelope::pluck_spec(
                    500_000,
                    1_000_000_000,
                    10_000_000,
                    scale_spec(70_000, i),
                ),
            },
        ],
        lowpass: None,
        reverb: reverb_send_spec(
            ReverbUnit::hall_spec(300_000, 600_000, 400_000, 5_000_000_000),
            ss.reverb_mix,
        ),
    }
}

/// A metal voice.
fn voice(carrier: i64, modulator: i64, index: i64, index_decay: i64, envelope: Envelope) -> (l:
    Layer)
    ensures
        l@ == voice_spec(carrier, modulator, index, index_decay, envelope),
{
    Layer {
        source: Source::Fm {
            carrier,
            modulator,
            index: Control::ExpSweep { base: 0, range: index, rate: index_decay },
        },
        envelope,
    }
}

/// Lays out the design of a sword slash.
pub fn sword_slash_design(ss: &SwordSlash) -> (d: SoundDesign)
    ensures
        d@ == sword_slash_spec(*ss),
{
    let level: i64 = confine(ss.intensity);
    let pitch: i64 = confine(ss.pitch_shift);
    let mut layers: Vec<Layer> = Vec::new();
    layers.push(
        voice(
            scale(720_000_000, pitch),
            scale(487_000_000, pitch),
            scale(9_740_000_000, pitch),
            3_000_000,
            Envelope::pluck(1_200_000, 500_000_000, 6_000_000, scale(20_000, level)),
        ),
    );
    layers.push(
        voice(
            scale(2_100_000_000, pitch),
            scale(1_430_000_000, pitch),
            scale(25_740_000_000, pitch),
            5_000_000,
            Envelope::pluck(600_000, 500_000_000, 10_000_000, scale(15_000, level)),
        ),
    );
    layers.push(
        voice(
            scale(4_200_000_000, pitch),
            scale(2_870_000_000, pitch),
            scale(34_440_000_000, pitch),
            8_000_000,
            Envelope::pluck(300_000, 500_000_000, 15_000_000, scale(8_000, level)),
        ),
    );
    layers.push(
        Layer {
            source: Source::SweptNoise {
                sweep: Control::ExpSweep {
                    base: scale(300_000_000, pitch),
                    range: scale(9_700_000_000, pitch),
                    rate: 8_000_000,
                },
            },
            envelope: Envelope::pluck(500_000, 1_000_000_000, 10_000_000, scale(70_000, level)),
        },
    );
    let d = SoundDesign {
        layers,
        lowpass: None,
        reverb: reverb_send(
            ReverbUnit::hall(300_000, 600_000, 400_000, 5_000_000_000),
            ss.reverb_mix,
        ),
    };
    assert(d@.layers =~= sword_slash_spec(*ss).layers);
    d
}

/// Builds the graph of a sword slash.
pub fn build_sword_slash_graph(ss: &SwordSlash) -> (g: Graph)
    ensures
        g@ == assemble_spec(sword_slash_spec(*ss)),
        g@.wf(),
        g@.feed_forward(),
        g@.stereo_source(),
        output_signal(g@, 0) == design_signal(sword_slash_spec(*ss), 0),
        output_signal(g@, 1) == design_signal(sword_slash_spec(*ss), 1),
{
    let design = sword_slash_design(ss);
    assemble(&design)
}

/// The slowest layer of a sword slash is cut off after 1.2 seconds,
/// whatever the settings: after that every layer is silent.
pub proof fn lemma_sword_slash_silence(ss: SwordSlash, i: int, t: int)
    requires
        0 <= i < 4,
        t > 1_200_000,
    ensures
        sword_slash_spec(ss).layers.len() == 4,
        is_latest_cutoff(sword_slash_spec(ss).layers, 1_200_000),
        sword_slash_spec(ss).layers[i].envelope.silent_at(t),
{
    let layers = sword_slash_spec(ss).layers;
    assert(layers[0].envelope.cutoff == 1_200_000);
    assert(layers[1].envelope.cutoff == 600_000);
    assert(layers[2].envelope.cutoff == 300_000);
    assert(layers[3].envelope.cutoff == 500_000);
}

/// Without reverb, a sword slash is exactly 0 on both channels after
/// 1.2 seconds.
pub proof fn lemma_sword_slash_falls_silent(ss: SwordSlash, channel: usize, t: int)
    requires
        ss.reverb_mix <= 0,
        t > 1_200_000,
    ensures
        mute_at(design_signal(sword_slash_spec(ss), channel), t),
{
    lemma_sword_slash_silence(ss, 0, t);
    lemma_dry_design_falls_silent(sword_slash_spec(ss), 1_200_000, channel, t);
}

} // verus!
