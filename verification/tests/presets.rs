use proc_aud::components::synth::OscillatorType;
use proc_aud::dsp::design::{
    assemble, reverb_send, Layer, Partial, ReverbSend, SoundDesign, Source,
};
use proc_aud::dsp::graph::{Graph, Port};
use proc_aud::dsp::unit::{
    BandShape, Control, Decay, Envelope, Ramp, ReverbUnit, Stutter, UnitKind,
};
use proc_aud::presets::arcane_attack::{arcane_attack_design, build_arcane_attack_graph, ArcaneAttack};
use proc_aud::presets::blunt_impact::{blunt_impact_design, build_blunt_impact_graph, BluntImpact};
use proc_aud::presets::explosion::{build_explosion_graph, explosion_design, Explosion};
use proc_aud::presets::lightning::{
    build_lightning_strike_graph, build_lightning_zap_graph, lightning_strike_design,
    lightning_zap_design, LightningStrike, LightningZap,
};
use proc_aud::presets::sword_slash::{build_sword_slash_graph, sword_slash_design, SwordSlash};

fn kinds(g: &Graph) -> Vec<UnitKind> {
    (0..g.size()).map(|i| g.kind(i).unwrap()).collect()
}

fn pluck(cutoff: i64, attack: i64, decay: i64, gain: i64) -> Envelope {
    Envelope {
        cutoff,
        attack: Some(Ramp { delay: 0, rate: attack }),
        decay: Decay { delay: 0, rate: decay },
        stutter: None,
        gain,
    }
}

fn noise() -> UnitKind {
    UnitKind::Oscillator { wave: OscillatorType::Noise, freq: None }
}

fn sine() -> UnitKind {
    UnitKind::Oscillator { wave: OscillatorType::Sine, freq: None }
}

fn sine_hz(f: i64) -> UnitKind {
    UnitKind::Oscillator { wave: OscillatorType::Sine, freq: Some(f) }
}

fn p(node: usize) -> Option<Port> {
    Some(Port { node, port: 0 })
}

#[test]
fn defaults_of_the_presets() {
    assert_eq!(
        SwordSlash::default(),
        SwordSlash { intensity: 800_000, pitch_shift: 1_000_000, reverb_mix: 0 }
    );
    assert_eq!(
        BluntImpact::default(),
        BluntImpact { intensity: 800_000, pitch_shift: 1_000_000, reverb_mix: 0 }
    );
    assert_eq!(
        LightningZap::default(),
        LightningZap { intensity: 800_000, pitch_shift: 1_000_000, reverb_mix: 0 }
    );
    assert_eq!(
        LightningStrike::default(),
        LightningStrike { intensity: 800_000, pitch_shift: 1_000_000, reverb_mix: 150_000 }
    );
    assert_eq!(
        Explosion::default(),
        Explosion {
            intensity: 800_000,
            pitch_shift: 1_000_000,
            reverb_mix: 100_000,
            lowpass: 20_000_000_000
        }
    );
    assert_eq!(
        ArcaneAttack::default(),
        ArcaneAttack {
            intensity: 800_000,
            pitch_shift: 1_000_000,
            reverb_mix: 300_000,
            lowpass: 20_000_000_000
        }
    );
}

#[test]
fn sword_slash_design_at_default_settings() {
    let d = sword_slash_design(&SwordSlash::default());
    assert_eq!(d.layers.len(), 4);
    assert_eq!(
        d.layers[0],
        Layer {
            source: Source::Fm {
                carrier: 720_000_000,
                modulator: 487_000_000,
                index: Control::ExpSweep { base: 0, range: 9_740_000_000, rate: 3_000_000 },
            },
            envelope: pluck(1_200_000, 500_000_000, 6_000_000, 16_000),
        }
    );
    assert_eq!(
        d.layers[1],
        Layer {
            source: Source::Fm {
                carrier: 2_100_000_000,
                modulator: 1_430_000_000,
                index: Control::ExpSweep { base: 0, range: 25_740_000_000, rate: 5_000_000 },
            },
            envelope: pluck(600_000, 500_000_000, 10_000_000, 12_000),
        }
    );
    assert_eq!(
        d.layers[2],
        Layer {
            source: Source::Fm {
                carrier: 4_200_000_000,
                modulator: 2_870_000_000,
                index: Control::ExpSweep { base: 0, range: 34_440_000_000, rate: 8_000_000 },
            },
            envelope: pluck(300_000, 500_000_000, 15_000_000, 6_400),
        }
    );
    assert_eq!(
        d.layers[3],
        Layer {
            source: Source::SweptNoise {
                sweep: Control::ExpSweep {
                    base: 300_000_000,
                    range: 9_700_000_000,
                    rate: 8_000_000
                },
            },
            envelope: pluck(500_000, 1_000_000_000, 10_000_000, 56_000),
        }
    );
    assert_eq!(d.lowpass, None);
    assert_eq!(d.reverb, None);
    assert_eq!(d.silent_after(), 1_200_000);
}

#[test]
fn pitch_shift_scales_every_frequency_of_the_sword_slash() {
    let d = sword_slash_design(&SwordSlash {
        intensity: 500_000,
        pitch_shift: 1_500_000,
        reverb_mix: 0,
    });
    match &d.layers[0].source {
        Source::Fm { carrier, modulator, index } => {
            assert_eq!(*carrier, 1_080_000_000);
            assert_eq!(*modulator, 730_500_000);
            assert_eq!(
                *index,
                Control::ExpSweep { base: 0, range: 14_610_000_000, rate: 3_000_000 }
            );
        }
        other => panic!("unexpected source {:?}", other),
    }
    match &d.layers[3].source {
        Source::SweptNoise { sweep } => assert_eq!(
            *sweep,
            Control::ExpSweep { base: 450_000_000, range: 14_550_000_000, rate: 8_000_000 }
        ),
        other => panic!("unexpected source {:?}", other),
    }
    // Times do not scale; gains follow the intensity.
    assert_eq!(d.layers[0].envelope, pluck(1_200_000, 500_000_000, 6_000_000, 10_000));
    assert_eq!(d.silent_after(), 1_200_000);
}

#[test]
fn sword_slash_graph_without_reverb() {
    let g = build_sword_slash_graph(&SwordSlash::default());
    assert_eq!(g.size(), 33);
    assert!(g.is_feed_forward());
    // The first voice: carrier plus modulator times index, into a sine.
    assert_eq!(
        kinds(&g)[..8],
        [
            UnitKind::Constant(720_000_000),
            sine_hz(487_000_000),
            UnitKind::Control(Control::ExpSweep { base: 0, range: 9_740_000_000, rate: 3_000_000 }),
            UnitKind::Multiply,
            UnitKind::Add,
            sine(),
            UnitKind::Control(Control::Envelope(pluck(1_200_000, 500_000_000, 6_000_000, 16_000))),
            UnitKind::Multiply,
        ]
    );
    assert_eq!((g.source(3, 0), g.source(3, 1)), (p(1), p(2)));
    assert_eq!((g.source(4, 0), g.source(4, 1)), (p(0), p(3)));
    assert_eq!(g.source(5, 0), p(4));
    assert_eq!((g.source(7, 0), g.source(7, 1)), (p(5), p(6)));
    // The noise layer: noise and its cutoff into a low-pass.
    assert_eq!(g.kind(24), Some(noise()));
    assert_eq!(g.kind(26), Some(UnitKind::LowPole(None)));
    assert_eq!((g.source(26, 0), g.source(26, 1)), (p(24), p(25)));
    // The sum of the four layers, split to stereo.
    assert_eq!(kinds(&g)[29..32], [UnitKind::Add, UnitKind::Add, UnitKind::Add]);
    assert_eq!((g.source(29, 0), g.source(29, 1)), (p(7), p(15)));
    assert_eq!((g.source(30, 0), g.source(30, 1)), (p(29), p(23)));
    assert_eq!((g.source(31, 0), g.source(31, 1)), (p(30), p(28)));
    assert_eq!(g.kind(32), Some(UnitKind::Split));
    assert_eq!(g.source(32, 0), p(31));
    assert_eq!(g.output_source(0), Some(Port { node: 32, port: 0 }));
    assert_eq!(g.output_source(1), Some(Port { node: 32, port: 1 }));
}

#[test]
fn reverb_is_left_out_only_at_a_share_of_zero() {
    let unit = ReverbUnit::hall(300_000, 600_000, 400_000, 5_000_000_000);
    assert_eq!(reverb_send(unit, 0), None);
    assert_eq!(reverb_send(unit, -500_000), None);
    assert_eq!(reverb_send(unit, 1), Some(ReverbSend { unit, dry: 999_999, wet: 1 }));
    assert_eq!(reverb_send(unit, 1_000), Some(ReverbSend { unit, dry: 999_000, wet: 1_000 }));
    assert_eq!(reverb_send(unit, 1_001), Some(ReverbSend { unit, dry: 998_999, wet: 1_001 }));
    let dry = build_sword_slash_graph(&SwordSlash::default());
    for mix in [-1, 0] {
        let g = build_sword_slash_graph(&SwordSlash {
            intensity: 800_000,
            pitch_shift: 1_000_000,
            reverb_mix: mix,
        });
        assert_eq!(kinds(&g), kinds(&dry));
    }
    for mix in [1, 500, 1_000] {
        let g = build_sword_slash_graph(&SwordSlash {
            intensity: 800_000,
            pitch_shift: 1_000_000,
            reverb_mix: mix,
        });
        assert_eq!(g.size(), dry.size() + 3);
        assert_eq!(
            g.kind(g.size() - 1),
            Some(UnitKind::Crossfade { dry: 1_000_000 - mix, wet: mix })
        );
    }
}

#[test]
fn reverb_is_cross_faded_with_weights_that_add_up_to_one() {
    let unit = ReverbUnit::hall(300_000, 600_000, 400_000, 5_000_000_000);
    for mix in [1, 1_001, 150_000, 500_000, 999_999, 1_000_000, 1_500_000] {
        let send = reverb_send(unit, mix).unwrap();
        assert_eq!(send.wet, mix);
        assert_eq!(send.dry + send.wet, 1_000_000);
        assert_eq!(send.unit, unit);
    }
    assert_eq!(reverb_send(unit, 1_000_000), Some(ReverbSend { unit, dry: 0, wet: 1_000_000 }));

    let g = build_sword_slash_graph(&SwordSlash {
        intensity: 800_000,
        pitch_shift: 1_000_000,
        reverb_mix: 250_000,
    });
    assert_eq!(g.size(), 36);
    assert_eq!(g.kind(32), Some(UnitKind::Split));
    assert_eq!(
        g.kind(33),
        Some(UnitKind::Reverb(ReverbUnit {
            room_size: 300_000,
            time: 600_000,
            diffusion: 400_000,
            modulation: 1_000_000,
            damping_cutoff: 5_000_000_000,
        }))
    );
    let fade = UnitKind::Crossfade { dry: 750_000, wet: 250_000 };
    assert_eq!((g.kind(34), g.kind(35)), (Some(fade), Some(fade)));
    assert_eq!(g.source(33, 0), Some(Port { node: 32, port: 0 }));
    assert_eq!(g.source(33, 1), Some(Port { node: 32, port: 1 }));
    assert_eq!(g.source(34, 0), Some(Port { node: 32, port: 0 }));
    assert_eq!(g.source(34, 1), Some(Port { node: 33, port: 0 }));
    assert_eq!(g.source(35, 0), Some(Port { node: 32, port: 1 }));
    assert_eq!(g.source(35, 1), Some(Port { node: 33, port: 1 }));
    assert_eq!(g.output_source(0), p(34));
    assert_eq!(g.output_source(1), p(35));
    // The dry part of the graph is what it is without reverb.
    let dry = build_sword_slash_graph(&SwordSlash::default());
    assert_eq!(kinds(&g)[..33], kinds(&dry)[..]);
}

#[test]
fn blunt_impact_design_at_default_settings() {
    let d = blunt_impact_design(&BluntImpact::default());
    let tone = |freq: i64| Partial { freq, weight: 1_000_000 };
    assert_eq!(
        d.layers,
        vec![
            Layer {
                source: Source::LowNoise { cutoff: 5_000_000_000, steep: false },
                envelope: pluck(100_000, 500_000_000, 35_000_000, 400_000),
            },
            Layer {
                source: Source::Sines {
                    partials: vec![tone(45_000_000), tone(90_000_000)],
                    gain: 1_000_000
                },
                envelope: pluck(150_000, 200_000_000, 20_000_000, 280_000),
            },
            Layer {
                source: Source::Sines {
                    partials: vec![
                        tone(780_000_000),
                        tone(1_850_000_000),
                        tone(3_100_000_000),
                        tone(4_700_000_000)
                    ],
                    gain: 1_000_000
                },
                envelope: pluck(200_000, 500_000_000, 18_000_000, 64_000),
            },
        ]
    );
    assert_eq!(d.lowpass, None);
    assert_eq!(d.reverb, None);
    assert_eq!(d.silent_after(), 200_000);
    let g = build_blunt_impact_graph(&BluntImpact::default());
    assert_eq!(g.size(), 29);
    // The clang: four partials, summed from left to right.
    assert_eq!(kinds(&g)[20..23], [UnitKind::Add, UnitKind::Add, UnitKind::Add]);
    assert_eq!((g.source(20, 0), g.source(20, 1)), (p(13), p(15)));
    assert_eq!((g.source(21, 0), g.source(21, 1)), (p(20), p(17)));
    assert_eq!((g.source(22, 0), g.source(22, 1)), (p(21), p(19)));
    // The three layers, summed from left to right.
    assert_eq!(kinds(&g)[26..], [UnitKind::Add, UnitKind::Add, UnitKind::Split]);
    assert_eq!((g.source(26, 0), g.source(26, 1)), (p(3), p(11)));
    assert_eq!((g.source(27, 0), g.source(27, 1)), (p(26), p(25)));
    assert!(g.is_feed_forward());
}

#[test]
fn cluster_is_a_sum_of_weighted_sines() {
    let g = build_blunt_impact_graph(&BluntImpact::default());
    // The thud: two sines, each with its gain, their sum, and the gain of the cluster.
    assert_eq!(
        kinds(&g)[4..10],
        [
            sine_hz(45_000_000),
            UnitKind::Gain(1_000_000),
            sine_hz(90_000_000),
            UnitKind::Gain(1_000_000),
            UnitKind::Add,
            UnitKind::Gain(1_000_000),
        ]
    );
    assert_eq!(g.source(5, 0), p(4));
    assert_eq!(g.source(7, 0), p(6));
    assert_eq!((g.source(8, 0), g.source(8, 1)), (p(5), p(7)));
    assert_eq!(g.source(9, 0), p(8));
}

#[test]
fn lightning_zap_design_at_default_settings() {
    let d = lightning_zap_design(&LightningZap::default());
    assert_eq!(
        d.layers,
        vec![
            Layer {
                source: Source::BandNoise {
                    shape: BandShape { center: 5_000_000_000, q: 1_500_000 }
                },
                envelope: Envelope {
                    cutoff: 550_000,
                    attack: None,
                    decay: Decay { delay: 0, rate: 3_500_000 },
                    stutter: Some(Stutter {
                        first: 127_300_000,
                        second: 89_700_000,
                        third: Some(211_100_000)
                    }),
                    gain: 520_000,
                },
            },
            Layer {
                source: Source::BandNoise {
                    shape: BandShape { center: 7_000_000_000, q: 1_000_000 }
                },
                envelope: Envelope {
                    cutoff: 500_000,
                    attack: None,
                    decay: Decay { delay: 0, rate: 4_000_000 },
                    stutter: Some(Stutter {
                        first: 173_900_000,
                        second: 67_300_000,
                        third: None
                    }),
                    gain: 320_000,
                },
            },
            Layer {
                source: Source::BandNoise {
                    shape: BandShape { center: 3_500_000_000, q: 1_500_000 }
                },
                envelope: Envelope {
                    cutoff: 500_000,
                    attack: None,
                    decay: Decay { delay: 0, rate: 3_000_000 },
                    stutter: Some(Stutter {
                        first: 151_700_000,
                        second: 103_300_000,
                        third: Some(197_900_000)
                    }),
                    gain: 280_000,
                },
            },
        ]
    );
    assert_eq!(d.silent_after(), 550_000);
    assert_eq!(build_lightning_zap_graph(&LightningZap::default()).size(), 15);
}

#[test]
fn lightning_strike_design_at_default_settings() {
    let d = lightning_strike_design(&LightningStrike::default());
    assert_eq!(
        d.layers,
        vec![
            Layer {
                source: Source::Noise,
                envelope: pluck(150_000, 5_000_000_000, 20_000_000, 400_000),
            },
            Layer {
                source: Source::LowNoise { cutoff: 80_000_000, steep: true },
                envelope: pluck(2_500_000, 100_000_000, 1_200_000, 560_000),
            },
            Layer {
                source: Source::LowNoise { cutoff: 400_000_000, steep: false },
                envelope: pluck(1_500_000, 200_000_000, 2_000_000, 240_000),
            },
            Layer {
                source: Source::Fm {
                    carrier: 1_800_000_000,
                    modulator: 1_270_000_000,
                    index: Control::ExpSweep { base: 0, range: 38_100_000_000, rate: 6_000_000 },
                },
                envelope: pluck(800_000, 1_000_000_000, 4_000_000, 48_000),
            },
        ]
    );
    assert_eq!(
        d.reverb,
        Some(ReverbSend {
            unit: ReverbUnit {
                room_size: 600_000,
                time: 1_500_000,
                diffusion: 500_000,
                modulation: 1_000_000,
                damping_cutoff: 2_000_000_000
            },
            dry: 850_000,
            wet: 150_000,
        })
    );
    assert_eq!(d.silent_after(), 2_500_000);
    let g = build_lightning_strike_graph(&LightningStrike::default());
    assert_eq!(g.size(), 27);
    // The boom passes two poles.
    assert_eq!(
        kinds(&g)[3..6],
        [noise(), UnitKind::LowPole(Some(80_000_000)), UnitKind::LowPole(Some(80_000_000))]
    );
    assert_eq!(g.source(5, 0), p(4));
}

#[test]
fn explosion_design_at_default_settings() {
    let d = explosion_design(&Explosion::default());
    let paced = |cutoff: i64, attack: Ramp, decay: i64, stutter: Option<Stutter>, gain: i64| {
        Envelope { cutoff, attack: Some(attack), decay: Decay { delay: 0, rate: decay }, stutter, gain }
    };
    assert_eq!(
        d.layers,
        vec![
            Layer {
                source: Source::LowNoise { cutoff: 3_000_000_000, steep: false },
                envelope: paced(
                    200_000,
                    Ramp { delay: 0, rate: 5_000_000_000 },
                    18_000_000,
                    None,
                    160_000
                ),
            },
            Layer {
                source: Source::Sines {
                    partials: vec![
                        Partial { freq: 80_000_000, weight: 1_000_000 },
                        Partial { freq: 130_000_000, weight: 500_000 }
                    ],
                    gain: 1_000_000,
                },
                envelope: paced(
                    2_500_000,
                    Ramp { delay: 0, rate: 60_000_000 },
                    1_500_000,
                    None,
                    96_000
                ),
            },
            Layer {
                source: Source::LowNoise { cutoff: 250_000_000, steep: true },
                envelope: paced(
                    3_000_000,
                    Ramp { delay: 0, rate: 80_000_000 },
                    1_000_000,
                    None,
                    480_000
                ),
            },
            Layer {
                source: Source::LowNoise { cutoff: 800_000_000, steep: false },
                envelope: paced(
                    1_500_000,
                    Ramp { delay: 0, rate: 150_000_000 },
                    2_500_000,
                    None,
                    320_000
                ),
            },
            Layer {
                source: Source::SweptNoise {
                    sweep: Control::ExpSweep {
                        base: 200_000_000,
                        range: 3_800_000_000,
                        rate: 3_000_000
                    },
                },
                envelope: paced(
                    1_500_000,
                    Ramp { delay: 20_000, rate: 60_000_000 },
                    2_000_000,
                    None,
                    280_000
                ),
            },
            Layer {
                source: Source::BandNoise {
                    shape: BandShape { center: 5_000_000_000, q: 1_500_000 }
                },
                envelope: paced(
                    1_800_000,
                    Ramp { delay: 50_000, rate: 20_000_000 },
                    2_000_000,
                    Some(Stutter { first: 97_300_000, second: 143_700_000, third: None }),
                    32_000
                ),
            },
        ]
    );
    assert_eq!(d.lowpass, Some(20_000_000_000));
    assert_eq!(d.reverb.unwrap().wet, 100_000);
    assert_eq!(d.reverb.unwrap().dry, 900_000);
    assert_eq!(d.silent_after(), 3_000_000);
}

#[test]
fn explosion_at_four_times_the_pitch_runs_twice_as_fast() {
    let d = explosion_design(&Explosion {
        intensity: 1_000_000,
        pitch_shift: 4_000_000,
        reverb_mix: 0,
        lowpass: 8_000_000_000,
    });
    let cutoffs: Vec<i64> = d.layers.iter().map(|l| l.envelope.cutoff).collect();
    assert_eq!(cutoffs, vec![100_000, 1_250_000, 1_500_000, 750_000, 750_000, 900_000]);
    let decays: Vec<i64> = d.layers.iter().map(|l| l.envelope.decay.rate).collect();
    assert_eq!(decays, vec![36_000_000, 3_000_000, 2_000_000, 5_000_000, 4_000_000, 4_000_000]);
    // Attacks keep their pace.
    assert_eq!(d.layers[4].envelope.attack, Some(Ramp { delay: 20_000, rate: 60_000_000 }));
    assert_eq!(
        d.layers[4].source,
        Source::SweptNoise {
            sweep: Control::ExpSweep {
                base: 800_000_000,
                range: 15_200_000_000,
                rate: 6_000_000
            }
        }
    );
    assert_eq!(d.silent_after(), 1_500_000);
    assert_eq!(d.lowpass, Some(8_000_000_000));
}

#[test]
fn explosion_at_a_quarter_of_the_pitch_runs_half_as_fast() {
    let d = explosion_design(&Explosion {
        intensity: 800_000,
        pitch_shift: 250_000,
        reverb_mix: 0,
        lowpass: 20_000_000_000,
    });
    assert_eq!(d.layers[2].envelope.cutoff, 6_000_000);
    assert_eq!(d.layers[2].envelope.decay.rate, 500_000);
    assert_eq!(d.layers[2].source, Source::LowNoise { cutoff: 62_500_000, steep: true });
    assert_eq!(d.silent_after(), 6_000_000);
}

#[test]
fn explosion_graph_passes_two_poles_before_the_split() {
    let g = build_explosion_graph(&Explosion::default());
    assert_eq!(g.size(), 41);
    assert_eq!(kinds(&g)[30..35], [UnitKind::Add; 5]);
    assert_eq!(g.kind(35), Some(UnitKind::LowPole(Some(20_000_000_000))));
    assert_eq!(g.kind(36), Some(UnitKind::LowPole(Some(20_000_000_000))));
    assert_eq!(g.kind(37), Some(UnitKind::Split));
    assert_eq!((g.source(35, 0), g.source(36, 0), g.source(37, 0)), (p(34), p(35), p(36)));
    assert_eq!(g.kind(39), Some(UnitKind::Crossfade { dry: 900_000, wet: 100_000 }));
    assert!(g.is_feed_forward());
}

#[test]
fn arcane_attack_design_at_default_settings() {
    let d = arcane_attack_design(&ArcaneAttack::default());
    let one = 1_000_000;
    assert_eq!(
        d.layers,
        vec![
            Layer {
                source: Source::Sines {
                    partials: vec![
                        Partial { freq: 880_000_000, weight: one },
                        Partial { freq: 882_545_840, weight: one },
                        Partial { freq: 877_461_503, weight: one },
                        Partial { freq: 1_320_000_000, weight: one },
                        Partial { freq: 1_323_818_760, weight: one },
                        Partial { freq: 1_316_192_255, weight: one },
                    ],
                    gain: 166_666,
                },
                envelope: pluck(550_000, 40_000_000, 5_500_000, 120_000),
            },
            Layer {
                source: Source::BandNoise {
                    shape: BandShape { center: 6_000_000_000, q: 2_000_000 }
                },
                envelope: Envelope {
                    cutoff: 600_000,
                    attack: Some(Ramp { delay: 0, rate: 80_000_000 }),
                    decay: Decay { delay: 0, rate: 4_500_000 },
                    stutter: Some(Stutter {
                        first: 73_000_000,
                        second: 113_000_000,
                        third: None
                    }),
                    gain: 200_000,
                },
            },
            Layer {
                source: Source::SweptSine {
                    freq: Control::LinearSweep {
                        cutoff: 450_000,
                        from: 300_000_000,
                        to: 1_800_000_000
                    },
                    vibrato_rate: 7_000_000,
                    vibrato_depth: 30_000_000,
                },
                envelope: Envelope {
                    cutoff: 450_000,
                    attack: Some(Ramp { delay: 0, rate: 30_000_000 }),
                    decay: Decay { delay: 350_000, rate: 20_000_000 },
                    stutter: None,
                    gain: 96_000,
                },
            },
            Layer {
                source: Source::SweptNoise {
                    sweep: Control::Bell {
                        cutoff: 600_000,
                        floor: 200_000_000,
                        peak: 1_200_000_000,
                        center: 400_000,
                        sharpness: 12_000_000,
                    },
                },
                envelope: pluck(600_000, 20_000_000, 3_500_000, 240_000),
            },
            Layer {
                source: Source::Sines {
                    partials: vec![
                        Partial { freq: 1_320_000_000, weight: one },
                        Partial { freq: 1_720_000_000, weight: 800_000 },
                        Partial { freq: 2_150_000_000, weight: 600_000 },
                        Partial { freq: 2_680_000_000, weight: 400_000 },
                        Partial { freq: 3_200_000_000, weight: 200_000 },
                    ],
                    gain: 333_333,
                },
                envelope: pluck(400_000, 120_000_000, 8_000_000, 64_000),
            },
        ]
    );
    assert_eq!(d.lowpass, Some(20_000_000_000));
    assert_eq!(d.reverb.unwrap().dry, 700_000);
    assert_eq!(d.silent_after(), 600_000);
    let g = build_arcane_attack_graph(&ArcaneAttack::default());
    assert_eq!(g.size(), 63);
    assert!(g.is_feed_forward());
    // The sweep: its frequency plus the vibrato, into a sine.
    assert_eq!(
        kinds(&g)[24..29],
        [
            UnitKind::Control(Control::LinearSweep {
                cutoff: 450_000,
                from: 300_000_000,
                to: 1_800_000_000
            }),
            sine_hz(7_000_000),
            UnitKind::Gain(30_000_000),
            UnitKind::Add,
            sine(),
        ]
    );
    assert_eq!((g.source(27, 0), g.source(27, 1)), (p(24), p(26)));
}

#[test]
fn negative_settings_round_towards_minus_infinity() {
    let d = sword_slash_design(&SwordSlash { intensity: -1, pitch_shift: -1, reverb_mix: 0 });
    assert_eq!(d.layers[0].envelope.gain, -1);
    match &d.layers[0].source {
        Source::Fm { carrier, modulator, .. } => assert_eq!((*carrier, *modulator), (-720, -487)),
        other => panic!("unexpected source {:?}", other),
    }
}

#[test]
fn builders_take_the_ends_of_the_working_range() {
    let top = 1_000_000_000_000;
    let g = build_sword_slash_graph(&SwordSlash {
        intensity: top,
        pitch_shift: -top,
        reverb_mix: i64::MAX,
    });
    assert_eq!(g.size(), 36);
    assert_eq!(g.kind(0), Some(UnitKind::Constant(-720_000_000_000_000)));
    assert_eq!(
        g.kind(34),
        Some(UnitKind::Crossfade { dry: 1_000_000 - i64::MAX, wet: i64::MAX })
    );
    let e = build_explosion_graph(&Explosion {
        intensity: -top,
        pitch_shift: 1,
        reverb_mix: 0,
        lowpass: i64::MIN,
    });
    assert_eq!(e.size(), 38);
    let e = explosion_design(&Explosion {
        intensity: 0,
        pitch_shift: top,
        reverb_mix: 0,
        lowpass: 0,
    });
    // The pace is a thousand: three seconds become three milliseconds.
    assert_eq!(e.silent_after(), 3_000);
}

#[test]
fn settings_beyond_the_working_range_count_as_its_ends() {
    let top = 1_000_000_000_000;
    let far = sword_slash_design(&SwordSlash {
        intensity: i64::MAX,
        pitch_shift: i64::MIN,
        reverb_mix: 0,
    });
    let end = sword_slash_design(&SwordSlash { intensity: top, pitch_shift: -top, reverb_mix: 0 });
    assert_eq!(far, end);
    assert_eq!(far.layers[0].envelope.gain, 20_000_000_000);
    let far = explosion_design(&Explosion {
        intensity: top + 1,
        pitch_shift: top + 1,
        reverb_mix: 0,
        lowpass: 0,
    });
    let end = explosion_design(&Explosion {
        intensity: top,
        pitch_shift: top,
        reverb_mix: 0,
        lowpass: 0,
    });
    assert_eq!(far, end);
}

#[test]
fn explosion_pitch_counts_as_at_least_one_millionth() {
    let least = explosion_design(&Explosion {
        intensity: 800_000,
        pitch_shift: 1,
        reverb_mix: 0,
        lowpass: 20_000_000_000,
    });
    for pitch in [0i64, -1, -1_000_000, i64::MIN] {
        let d = explosion_design(&Explosion {
            intensity: 800_000,
            pitch_shift: pitch,
            reverb_mix: 0,
            lowpass: 20_000_000_000,
        });
        assert_eq!(d, least);
    }
    // The pace is a thousandth: three seconds become three thousand.
    assert_eq!(least.silent_after(), 3_000_000_000);
    assert_eq!(least.layers[0].envelope.decay.rate, 18_000);
    assert_eq!(least.layers[0].source, Source::LowNoise { cutoff: 3_000, steep: false });
}

#[test]
fn design_without_layers_is_silent_from_the_start() {
    let d = SoundDesign { layers: vec![], lowpass: None, reverb: None };
    assert_eq!(d.silent_after(), 0);
    let g = assemble(&d);
    assert_eq!(kinds(&g), vec![UnitKind::Constant(0), UnitKind::Split]);
    assert_eq!(g.output_source(1), Some(Port { node: 1, port: 1 }));
}

#[test]
fn silent_after_is_the_latest_cutoff() {
    let layer = |cutoff: i64| Layer { source: Source::Noise, envelope: pluck(cutoff, 1, 1, 1) };
    let d = SoundDesign {
        layers: vec![layer(300), layer(-5), layer(700), layer(700), layer(10)],
        lowpass: None,
        reverb: None,
    };
    assert_eq!(d.silent_after(), 700);
    let d = SoundDesign { layers: vec![layer(-9), layer(-5)], lowpass: None, reverb: None };
    assert_eq!(d.silent_after(), -5);
}
