use fundsp::prelude32::{
    bandpass, bandpass_hz, dc, highpole, highpole_hz, lfo, lfo_in, lowpole, lowpole_hz, moog, noise,
    pass,
    reverb2_stereo, saw, sine, split, square, triangle, var, AudioUnit, BufferRef, BufferVec,
    Frame, Net, Shared, MAX_BUFFER_SIZE, U1, U2,
};
use proc_aud::components::synth::OscillatorType;
use proc_aud::dsp::design::{add_fold, assemble, Layer, SoundDesign, Source};
use proc_aud::dsp::graph::{no_sources, out, sources1, sources2, Graph, InvalidWiring, Port};
use proc_aud::dsp::net::realize;
use proc_aud::dsp::source::ProceduralAudio;
use proc_aud::dsp::unit::{Control, Envelope, HeartPulse, ParamSlot, Ramp, UnitKind};
use proc_aud::fixed::{LIMIT, ONE};
use proc_aud::presets::arcane_attack::{build_arcane_attack_graph, ArcaneAttack};
use proc_aud::presets::blunt_impact::{blunt_impact_design, build_blunt_impact_graph, BluntImpact};
use proc_aud::presets::ear_ringing::{build_ear_ringing_graph, EarRinging};
use proc_aud::presets::explosion::{build_explosion_graph, Explosion};
use proc_aud::presets::heartbeat::{
    beat_period, beat_phase, build_heartbeat_graph, burst_time, phase_jitter, Heartbeat,
    BURST_ATTACK, OVERTONE_WEIGHT, WANDER_FAST_HZ, WANDER_FAST_WEIGHT, WANDER_MID_HZ,
    WANDER_MID_WEIGHT, WANDER_SLOW_HZ, WANDER_SLOW_WEIGHT,
};
use proc_aud::presets::lightning::{
    build_lightning_strike_graph, build_lightning_zap_graph, lightning_zap_design, LightningStrike,
    LightningZap,
};
use proc_aud::presets::sword_slash::{build_sword_slash_graph, sword_slash_design, SwordSlash};

const TAU: f32 = core::f32::consts::TAU;

fn to_f32(v: i64) -> f32 {
    (v as f64 / 1e6) as f32
}

fn to_micro(x: f32) -> i64 {
    ((x as f64 * 1e6).round() as i64).clamp(-LIMIT, LIMIT)
}

fn envelope_value(e: &Envelope, t: f32) -> f32 {
    let at = to_micro(t);
    if e.is_silent(at) {
        return 0.0;
    }
    let rise = to_f32(e.rise(at));
    let fall = (-(t - to_f32(e.decay.delay)).max(0.0) * to_f32(e.decay.rate)).exp();
    let stutter = match e.stutter {
        Some(s) => {
            let mut product = (t * to_f32(s.first) * TAU).sin() * (t * to_f32(s.second) * TAU).sin();
            if let Some(third) = s.third {
                product *= (t * to_f32(third) * TAU).sin();
            }
            product.max(0.0)
        }
        None => 1.0,
    };
    rise * fall * stutter * to_f32(e.gain)
}

fn control_value(c: &Control, t: f32) -> f32 {
    match *c {
        Control::Envelope(e) => envelope_value(&e, t),
        Control::ExpSweep { base, range, rate } => {
            to_f32(base) + to_f32(range) * (-t * to_f32(rate)).exp()
        }
        Control::LinearSweep { cutoff, from, to } => {
            if c.is_past(to_micro(t)) {
                0.0
            } else {
                to_f32(from) + (to_f32(to) - to_f32(from)) * (t / to_f32(cutoff))
            }
        }
        Control::Bell { cutoff, floor, peak, center, sharpness } => {
            if c.is_past(to_micro(t)) {
                to_f32(floor)
            } else {
                let x = t / to_f32(cutoff);
                let curve = (-(x - to_f32(center)).powi(2) * to_f32(sharpness)).exp();
                to_f32(floor) + (to_f32(peak) - to_f32(floor)) * curve
            }
        }
        Control::Tremolo { throb, flutter } => {
            let a = to_f32(throb.offset) + to_f32(throb.depth) * (TAU * to_f32(throb.rate) * t).sin();
            let b = to_f32(flutter.offset)
                + to_f32(flutter.depth) * (TAU * to_f32(flutter.rate) * t).sin();
            a * b
        }
        Control::Pan(pan) => {
            let angle = TAU * to_f32(pan.phase(to_micro(t)));
            let square = if pan.quadrature { angle.sin().powi(2) } else { angle.cos().powi(2) };
            to_f32(pan.gain(to_micro(square).clamp(0, ONE)))
        }
    }
}

fn heart_sound(local_t: f32, freq_lo: f32, freq_hi: f32, decay: f32) -> f32 {
    if local_t < 0.0 {
        return 0.0;
    }
    let attack = to_f32(Ramp { delay: 0, rate: BURST_ATTACK }.level(to_micro(local_t)));
    let env = attack * (-decay * local_t).exp();
    let lo = (TAU * freq_lo * local_t).sin();
    let hi = (TAU * freq_hi * local_t).sin() * to_f32(OVERTONE_WEIGHT);
    (lo + hi) * env
}

fn heart_value(p: &HeartPulse, rate: f32, arrhythmia: f32, t: f32) -> f32 {
    let period = beat_period(to_micro(rate));
    if period <= 0 {
        return 0.0;
    }
    let wave = (TAU * to_f32(WANDER_SLOW_HZ) * t).sin() * to_f32(WANDER_SLOW_WEIGHT)
        + (TAU * to_f32(WANDER_MID_HZ) * t).sin() * to_f32(WANDER_MID_WEIGHT)
        + (TAU * to_f32(WANDER_FAST_HZ) * t).sin() * to_f32(WANDER_FAST_WEIGHT);
    let jitter = phase_jitter(to_micro(arrhythmia).clamp(0, ONE), to_micro(wave).clamp(-ONE, ONE));
    let phase = beat_phase(to_micro(t).clamp(0, LIMIT), period, jitter);
    let s1_t = to_f32(burst_time(phase, 0, period));
    let s2_t = to_f32(burst_time(phase, p.s2_phase.clamp(0, ONE), period));
    let s1 = heart_sound(s1_t, to_f32(p.s1.freq_lo), to_f32(p.s1.freq_hi), to_f32(p.s1.decay));
    let s2 = heart_sound(s2_t, to_f32(p.s2.freq_lo), to_f32(p.s2.freq_hi), to_f32(p.s2.decay))
        * to_f32(p.s2_gain);
    s1 + s2
}

fn cell(cells: &[(ParamSlot, Shared)], slot: ParamSlot) -> Shared {
    match cells.iter().find(|(s, _)| *s == slot) {
        Some((_, shared)) => shared.clone(),
        None => Shared::new(0.0),
    }
}

fn unit_for(kind: &UnitKind, cells: &[(ParamSlot, Shared)]) -> Net {
    let unit: Box<dyn AudioUnit> = match *kind {
        UnitKind::Oscillator { wave, freq } => match (wave, freq) {
            (OscillatorType::Noise, _) => Box::new(noise()),
            (OscillatorType::Sine, None) => Box::new(sine()),
            (OscillatorType::Saw, None) => Box::new(saw()),
            (OscillatorType::Square, None) => Box::new(square()),
            (OscillatorType::Triangle, None) => Box::new(triangle()),
            (OscillatorType::Sine, Some(f)) => Box::new(dc(to_f32(f)) >> sine()),
            (OscillatorType::Saw, Some(f)) => Box::new(dc(to_f32(f)) >> saw()),
            (OscillatorType::Square, Some(f)) => Box::new(dc(to_f32(f)) >> square()),
            (OscillatorType::Triangle, Some(f)) => Box::new(dc(to_f32(f)) >> triangle()),
        },
        UnitKind::Constant(v) => Box::new(dc(to_f32(v))),
        UnitKind::Control(c) => Box::new(lfo(move |t: f32| -> f32 { control_value(&c, t) })),
        UnitKind::Param(slot) => Box::new(var(&cell(cells, slot))),
        UnitKind::LowPole(Some(cutoff)) => Box::new(lowpole_hz(to_f32(cutoff))),
        UnitKind::LowPole(None) => Box::new(lowpole()),
        UnitKind::HighPole(Some(cutoff)) => Box::new(highpole_hz(to_f32(cutoff))),
        UnitKind::HighPole(None) => Box::new(highpole()),
        UnitKind::Moog => Box::new(moog()),
        UnitKind::BandPass(Some(shape)) => {
            Box::new(bandpass_hz(to_f32(shape.center), to_f32(shape.q)))
        }
        UnitKind::BandPass(None) => Box::new(bandpass()),
        UnitKind::Distortion { drive, mix } => {
            let (drive, mix) = (to_f32(drive), to_f32(mix));
            Box::new(fundsp::prelude32::map(move |f: &Frame<f32, U1>| -> f32 {
                let x = f[0];
                x * (1.0 - mix) + (x * drive).tanh() * mix
            }))
        }
        UnitKind::Gain(gain) => {
            let gain = to_f32(gain);
            Box::new(fundsp::prelude32::map(move |f: &Frame<f32, U1>| -> f32 { f[0] * gain }))
        }
        UnitKind::Add => Box::new(fundsp::prelude32::map(|f: &Frame<f32, U2>| -> f32 { f[0] + f[1] })),
        UnitKind::Multiply => Box::new(fundsp::prelude32::map(|f: &Frame<f32, U2>| -> f32 { f[0] * f[1] })),
        UnitKind::Crossfade { dry, wet } => {
            let (dry, wet) = (to_f32(dry), to_f32(wet));
            Box::new(fundsp::prelude32::map(move |f: &Frame<f32, U2>| -> f32 { f[0] * dry + f[1] * wet }))
        }
        UnitKind::Split => Box::new(split::<U2>()),
        UnitKind::Reverb(r) => Box::new(reverb2_stereo(
            to_f32(r.room_size),
            to_f32(r.time),
            to_f32(r.diffusion),
            to_f32(r.modulation),
            lowpole_hz(to_f32(r.damping_cutoff)),
        )),
        UnitKind::HeartPulse(p) => Box::new(lfo_in(move |t: f32, f: &Frame<f32, U2>| -> f32 {
            heart_value(&p, f[0], f[1], t)
        })),
    };
    Net::wrap(unit)
}

fn instantiate(graph: &Graph, cells: &[(ParamSlot, Shared)]) -> Net {
    assert!(graph.is_valid());
    let units = (0..graph.size()).map(|i| unit_for(&graph.kind(i).unwrap(), cells)).collect();
    let mut net = realize(graph, units).unwrap();
    net.set_sample_rate(44_100.0);
    net.allocate();
    net
}

/// Renders `frames` stereo frames, block by block.
fn render(net: &mut Net, frames: usize) -> Vec<(f32, f32)> {
    let mut buffer = BufferVec::new(2);
    let mut out = Vec::with_capacity(frames);
    while out.len() < frames {
        let size = MAX_BUFFER_SIZE.min(frames - out.len());
        net.process(size, &BufferRef::empty(), &mut buffer.buffer_mut());
        for i in 0..size {
            out.push((buffer.at_f32(0, i), buffer.at_f32(1, i)));
        }
    }
    out
}

fn render_graph(graph: &Graph, frames: usize) -> Vec<(f32, f32)> {
    render(&mut instantiate(graph, &[]), frames)
}

fn all_finite(samples: &[(f32, f32)]) -> bool {
    samples.iter().all(|(l, r)| l.is_finite() && r.is_finite())
}

fn all_zero(samples: &[(f32, f32)]) -> bool {
    samples.iter().all(|(l, r)| *l == 0.0 && *r == 0.0)
}

fn stereo_out(g: &mut Graph, node: usize) {
    let s = g.add(UnitKind::Split, sources1(out(node)));
    assert_eq!(g.connect_output(s, 0, 0), Ok(()));
    assert_eq!(g.connect_output(s, 1, 1), Ok(()));
}

#[test]
fn wired_network_computes_what_the_graph_says() {
    // 0.5 times 0.5, on both channels.
    let mut g = Graph::new(0, 2);
    let c = g.add(UnitKind::Constant(500_000), no_sources());
    let gain = g.add(UnitKind::Gain(500_000), sources1(out(c)));
    stereo_out(&mut g, gain);
    let samples = render_graph(&g, 200);
    assert_eq!(samples.len(), 200);
    assert!(samples.iter().all(|s| *s == (0.25, 0.25)));
}

#[test]
fn wired_network_keeps_the_order_of_inputs_and_outputs() {
    let mut g = Graph::new(0, 2);
    let a = g.add(UnitKind::Constant(3_000_000), no_sources());
    let b = g.add(UnitKind::Constant(5_000_000), no_sources());
    // First input alone, then second input alone.
    let first = g.add(UnitKind::Crossfade { dry: ONE, wet: 0 }, sources2(out(a), out(b)));
    let second = g.add(UnitKind::Crossfade { dry: 0, wet: ONE }, sources2(out(a), out(b)));
    assert_eq!(g.connect_output(first, 0, 0), Ok(()));
    assert_eq!(g.connect_output(second, 0, 1), Ok(()));
    assert!(render_graph(&g, 100).iter().all(|s| *s == (3.0, 5.0)));
    // The channels the other way round.
    assert_eq!(g.connect_output(second, 0, 0), Ok(()));
    assert_eq!(g.connect_output(first, 0, 1), Ok(()));
    assert!(render_graph(&g, 100).iter().all(|s| *s == (5.0, 3.0)));
}

#[test]
fn unbound_output_and_unwired_input_are_silent() {
    let mut g = Graph::new(0, 2);
    let a = g.add(UnitKind::Constant(2_000_000), no_sources());
    let gain = g.push(UnitKind::Gain(3_000_000));
    assert_eq!(g.connect_output(a, 0, 0), Ok(()));
    assert!(render_graph(&g, 64).iter().all(|s| *s == (2.0, 0.0)));
    assert_eq!(g.connect_output(gain, 0, 1), Ok(()));
    assert!(render_graph(&g, 64).iter().all(|s| *s == (2.0, 0.0)));
    assert_eq!(g.connect(a, 0, gain, 0), Ok(()));
    assert!(render_graph(&g, 64).iter().all(|s| *s == (2.0, 6.0)));
}

#[test]
fn sums_and_products_take_any_number_of_ports() {
    let values = [1_000_000i64, 2_000_000, 3_000_000, 4_000_000, 5_000_000];
    for n in 0..=values.len() {
        let mut g = Graph::new(0, 2);
        let ports: Vec<Port> =
            values[..n].iter().map(|v| out(g.leaf(UnitKind::Constant(*v)))).collect();
        let sum = add_fold(&mut g, false, &ports);
        let product = add_fold(&mut g, true, &ports);
        // No port: two constants.  One port: nothing.  Else one unit less than ports, twice.
        let added = match n {
            0 => 2,
            1 => 0,
            _ => 2 * (n - 1),
        };
        assert_eq!(g.size(), n + added);
        assert_eq!(g.connect_output(sum.node, sum.port, 0), Ok(()));
        assert_eq!(g.connect_output(product.node, product.port, 1), Ok(()));
        assert!(g.is_feed_forward());
        let expected_sum: f32 = values[..n].iter().map(|v| to_f32(*v)).sum();
        let expected_product: f32 = values[..n].iter().map(|v| to_f32(*v)).product();
        assert!(render_graph(&g, 64).iter().all(|s| *s == (expected_sum, expected_product)));
    }
}

#[test]
fn sum_is_taken_from_left_to_right() {
    let mut g = Graph::new(0, 1);
    let ports: Vec<Port> = (0..4).map(|v| out(g.leaf(UnitKind::Constant(v)))).collect();
    let sum = add_fold(&mut g, false, &ports);
    assert_eq!(sum, Port { node: 6, port: 0 });
    assert_eq!((g.kind(4), g.kind(5), g.kind(6)), (Some(UnitKind::Add), Some(UnitKind::Add), Some(UnitKind::Add)));
    assert_eq!((g.source(4, 0), g.source(4, 1)), (Some(ports[0]), Some(ports[1])));
    assert_eq!((g.source(5, 0), g.source(5, 1)), (Some(out(4)), Some(ports[2])));
    assert_eq!((g.source(6, 0), g.source(6, 1)), (Some(out(5)), Some(ports[3])));
    let product = add_fold(&mut g, true, &ports[..1].to_vec());
    assert_eq!(product, ports[0]);
    assert_eq!(g.size(), 7);
}

#[test]
fn crossfade_is_the_linear_blend_of_its_inputs() {
    for (dry, wet) in [(ONE, 0), (0, ONE), (750_000, 250_000), (500_000, 500_000)] {
        let mut g = Graph::new(0, 2);
        let a = g.add(UnitKind::Constant(800_000), no_sources());
        let b = g.add(UnitKind::Constant(-400_000), no_sources());
        let fade = g.add(UnitKind::Crossfade { dry, wet }, sources2(out(a), out(b)));
        stereo_out(&mut g, fade);
        let expected = to_f32(800_000) * to_f32(dry) + to_f32(-400_000) * to_f32(wet);
        assert!(render_graph(&g, 64).iter().all(|s| *s == (expected, expected)));
    }
}

#[test]
fn realize_refuses_units_that_do_not_fit() {
    let mut g = Graph::new(0, 2);
    let c = g.add(UnitKind::Constant(500_000), no_sources());
    stereo_out(&mut g, c);
    // Too few and too many units.
    assert_eq!(realize(&g, vec![]).err(), Some(InvalidWiring::ArityMismatch));
    let three = vec![
        Net::wrap(Box::new(dc(0.5))),
        Net::wrap(Box::new(split::<U2>())),
        Net::wrap(Box::new(pass())),
    ];
    assert_eq!(realize(&g, three).err(), Some(InvalidWiring::ArityMismatch));
    // A unit with an input where the node has none.
    let wrong_inputs = vec![Net::wrap(Box::new(pass())), Net::wrap(Box::new(split::<U2>()))];
    assert_eq!(realize(&g, wrong_inputs).err(), Some(InvalidWiring::ArityMismatch));
    // A unit with one output where the node has two.
    let wrong_outputs = vec![Net::wrap(Box::new(dc(0.5))), Net::wrap(Box::new(pass()))];
    assert_eq!(realize(&g, wrong_outputs).err(), Some(InvalidWiring::ArityMismatch));
    let fitting = vec![Net::wrap(Box::new(dc(0.5))), Net::wrap(Box::new(split::<U2>()))];
    assert!(realize(&g, fitting).is_ok());
}

#[test]
fn realize_refuses_a_node_that_reads_from_itself() {
    let mut g = Graph::new(0, 1);
    let gain = g.push(UnitKind::Gain(ONE));
    assert_eq!(g.connect(gain, 0, gain, 0), Ok(()));
    assert!(!g.is_loop_free());
    assert_eq!(
        realize(&g, vec![Net::wrap(Box::new(pass()))]).err(),
        Some(InvalidWiring::SelfConnection)
    );
    // The self-connection is reported even where the units do not fit either.
    assert_eq!(realize(&g, vec![]).err(), Some(InvalidWiring::SelfConnection));
}

#[test]
fn realize_takes_nodes_in_any_order() {
    // The gain comes before the constant that it reads.
    let mut g = Graph::new(0, 2);
    let gain = g.push(UnitKind::Gain(500_000));
    let c = g.push(UnitKind::Constant(3_000_000));
    assert_eq!(g.connect(c, 0, gain, 0), Ok(()));
    assert_eq!(g.connect_output(gain, 0, 0), Ok(()));
    assert_eq!(g.connect_output(c, 0, 1), Ok(()));
    assert!(!g.is_feed_forward());
    assert!(g.is_loop_free());
    assert!(g.is_valid());
    assert!(render_graph(&g, 128).iter().all(|s| *s == (1.5, 3.0)));
}

#[test]
fn realize_of_an_empty_graph_is_an_empty_network() {
    let g = Graph::new(0, 2);
    let mut net = realize(&g, vec![]).unwrap();
    assert_eq!(net.size(), 0);
    assert!(all_zero(&render(&mut net, 64)));
}

#[test]
fn heartbeat_follows_its_live_cells() {
    let (g, _) = build_heartbeat_graph(&Heartbeat::default());
    let rate = Shared::new(72.0);
    let level = Shared::new(0.5);
    let cells = [
        (ParamSlot::HeartRate, rate.clone()),
        (ParamSlot::Intensity, level.clone()),
        (ParamSlot::Arrhythmia, Shared::new(0.0)),
    ];
    let mut net = instantiate(&g, &cells);
    assert!(render(&mut net, 44_160).iter().any(|(l, _)| l.abs() > 1e-3));
    // At an intensity of 0 the pulse is multiplied away; the low-pass rings out.
    level.set_value(0.0);
    render(&mut net, 44_160);
    assert!(render(&mut net, 4_416).iter().all(|(l, r)| l.abs() < 1e-6 && r.abs() < 1e-6));
    level.set_value(1.0);
    rate.set_value(180.0);
    let fast = render(&mut net, 44_160);
    assert!(all_finite(&fast));
    assert!(fast.iter().any(|(l, _)| l.abs() > 1e-3));
}

#[test]
fn realized_network_has_one_unit_per_node() {
    let g = build_sword_slash_graph(&SwordSlash::default());
    let net = instantiate(&g, &[]);
    assert_eq!(net.size(), g.size());
    assert_eq!((net.inputs(), net.outputs()), (0, 2));
    net.check();
}

#[test]
fn sword_slash_sounds_at_once_and_is_silent_after_its_cutoff() {
    let g = build_sword_slash_graph(&SwordSlash {
        intensity: 800_000,
        pitch_shift: 1_000_000,
        reverb_mix: 0,
    });
    let samples = render_graph(&g, 56_000);
    assert!(all_finite(&samples));
    assert!(samples[..2_205].iter().any(|(l, r)| *l != 0.0 && *r != 0.0));
    // Envelopes are sampled every two milliseconds or so and interpolated
    // in between: silence is complete two such steps after 1.2 s.
    assert!(all_zero(&samples[53_200..]));
    // Both channels carry the same signal.
    assert!(samples.iter().all(|(l, r)| l == r));
}

#[test]
fn dry_one_shots_are_silent_after_their_latest_cutoff() {
    let zap = LightningZap::default();
    let after = lightning_zap_design(&zap).silent_after();
    assert_eq!(after, 550_000);
    let samples = render_graph(&build_lightning_zap_graph(&zap), 30_000);
    assert!(all_finite(&samples));
    assert!(samples[..24_255].iter().any(|(l, _)| *l != 0.0));
    assert!(all_zero(&samples[24_255 + 280..]));

    let blunt = BluntImpact::default();
    assert_eq!(blunt_impact_design(&blunt).silent_after(), 200_000);
    let samples = render_graph(&build_blunt_impact_graph(&blunt), 12_000);
    assert!(all_finite(&samples));
    assert!(samples[..8_820].iter().any(|(l, _)| *l != 0.0));
    assert!(all_zero(&samples[8_820 + 280..]));

    let strike = LightningStrike { intensity: 800_000, pitch_shift: 1_000_000, reverb_mix: 0 };
    let samples = render_graph(&build_lightning_strike_graph(&strike), 112_000);
    assert!(all_finite(&samples));
    assert!(all_zero(&samples[110_250 + 280..]));
}

#[test]
fn every_preset_renders_finite_samples_at_default_settings() {
    assert!(all_finite(&render_graph(&build_sword_slash_graph(&SwordSlash::default()), 60_000)));
    assert!(all_finite(&render_graph(&build_blunt_impact_graph(&BluntImpact::default()), 20_000)));
    assert!(all_finite(&render_graph(&build_lightning_zap_graph(&LightningZap::default()), 30_000)));
    assert!(all_finite(&render_graph(
        &build_lightning_strike_graph(&LightningStrike::default()),
        120_000
    )));
    assert!(all_finite(&render_graph(&build_explosion_graph(&Explosion::default()), 140_000)));
    assert!(all_finite(&render_graph(&build_arcane_attack_graph(&ArcaneAttack::default()), 40_000)));
}

#[test]
fn continuous_presets_render_finite_samples_and_keep_sounding() {
    let (g, params) = build_heartbeat_graph(&Heartbeat::default());
    let cells = [
        (ParamSlot::HeartRate, Shared::new(to_f32(params.rate.get()))),
        (ParamSlot::Intensity, Shared::new(to_f32(params.intensity.get()))),
        (ParamSlot::Arrhythmia, Shared::new(to_f32(params.arrhythmia.get()))),
    ];
    let samples = render(&mut instantiate(&g, &cells), 132_300);
    assert!(all_finite(&samples));
    // Something sounds in each of the three seconds.
    for second in 0..3 {
        assert!(samples[second * 44_100..(second + 1) * 44_100].iter().any(|(l, _)| l.abs() > 1e-3));
    }

    let (g, params) = build_ear_ringing_graph(&EarRinging::default());
    let cells = [(ParamSlot::Intensity, Shared::new(to_f32(params.intensity.get())))];
    let samples = render(&mut instantiate(&g, &cells), 88_200);
    assert!(all_finite(&samples));
    assert!(samples[44_100..].iter().any(|(l, r)| l.abs() > 1e-3 && r.abs() > 1e-3));
    // The mean of six sines at 0.3, through gains of at most 1.
    assert!(samples.iter().all(|(l, r)| l.abs() <= 0.31 && r.abs() <= 0.31));
}

#[test]
fn reverb_mix_of_zero_renders_the_dry_graph() {
    let with_zero = build_sword_slash_graph(&SwordSlash {
        intensity: 800_000,
        pitch_shift: 1_000_000,
        reverb_mix: 0,
    });
    let design = sword_slash_design(&SwordSlash::default());
    let dry = assemble(&SoundDesign { layers: design.layers, lowpass: None, reverb: None });
    assert!(render_graph(&with_zero, 20_000) == render_graph(&dry, 20_000));
}

#[test]
fn reverb_rings_on_after_the_dry_sound_has_ended() {
    let wet = build_lightning_zap_graph(&LightningZap {
        intensity: 800_000,
        pitch_shift: 1_000_000,
        reverb_mix: 500_000,
    });
    let samples = render_graph(&wet, 30_000);
    assert!(all_finite(&samples));
    assert!(samples[24_255 + 280..26_000].iter().any(|(l, r)| *l != 0.0 || *r != 0.0));
}

#[test]
fn two_playbacks_of_one_sound_render_the_same_samples() {
    let sound = ProceduralAudio::new(build_explosion_graph(&Explosion::default()), 44_100, 2);
    let (first_graph, _) = sound.decoder(MAX_BUFFER_SIZE, 0.0f32);
    let (second_graph, _) = sound.decoder(MAX_BUFFER_SIZE, 0.0f32);
    let mut first = instantiate(&first_graph, &[]);
    let mut second = instantiate(&second_graph, &[]);
    // The first playback is well under way when the second begins.
    let head = render(&mut first, 12_800);
    let tail = render(&mut first, 12_800);
    let again = render(&mut second, 25_600);
    assert!(head[..] == again[..12_800]);
    assert!(tail[..] == again[12_800..]);
    assert!(head.iter().any(|(l, _)| *l != 0.0));
}

#[test]
fn playbacks_hear_parameter_writes_only_through_the_cells_they_share() {
    let (g, _) = build_ear_ringing_graph(&EarRinging::default());
    let shared = Shared::new(0.3);
    let own = Shared::new(0.3);
    let mut a = instantiate(&g, &[(ParamSlot::Intensity, shared.clone())]);
    let mut b = instantiate(&g, &[(ParamSlot::Intensity, shared.clone())]);
    let mut c = instantiate(&g, &[(ParamSlot::Intensity, own)]);
    let first = render(&mut a, 4_096);
    assert!(first == render(&mut b, 4_096));
    assert!(first == render(&mut c, 4_096));
    assert!(first.iter().any(|(l, _)| *l != 0.0));
    // Silence the shared cell: both playbacks that read it go silent, the third plays on.
    shared.set_value(0.0);
    assert!(all_zero(&render(&mut a, 4_096)));
    assert!(all_zero(&render(&mut b, 4_096)));
    assert!(render(&mut c, 4_096).iter().any(|(l, _)| *l != 0.0));
}

#[test]
fn decoder_streams_what_the_network_renders() {
    let g = build_blunt_impact_graph(&BluntImpact::default());
    let sound = ProceduralAudio::new(g, 44_100, 2);
    let (graph, mut decoder) = sound.decoder(MAX_BUFFER_SIZE, 0.0f32);
    let mut net = instantiate(&graph, &[]);
    let mut buffer = BufferVec::new(2);
    let mut streamed = Vec::new();
    while streamed.len() < 2_000 {
        match decoder.next_sample() {
            Some(s) => streamed.push(s),
            None => {
                net.process(MAX_BUFFER_SIZE, &BufferRef::empty(), &mut buffer.buffer_mut());
                let left: Vec<f32> = (0..MAX_BUFFER_SIZE).map(|i| buffer.at_f32(0, i)).collect();
                let right: Vec<f32> = (0..MAX_BUFFER_SIZE).map(|i| buffer.at_f32(1, i)).collect();
                decoder.fill_block(&left, &right);
            }
        }
    }
    let expected = render_graph(&sound.graph().duplicate(), 1_000);
    for (k, (l, r)) in expected.iter().enumerate() {
        assert_eq!(streamed[2 * k], *l);
        assert_eq!(streamed[2 * k + 1], *r);
    }
}

#[test]
fn layer_is_its_source_times_its_envelope() {
    // Noise under an envelope of gain 0 is silent; under gain 1 it is not.
    let noise = |gain: i64| SoundDesign {
        layers: vec![Layer {
            source: Source::Noise,
            envelope: Envelope::pluck(1_000_000, 500_000_000, 0, gain),
        }],
        lowpass: None,
        reverb: None,
    };
    assert!(all_zero(&render_graph(&assemble(&noise(0)), 2_000)));
    let loud = render_graph(&assemble(&noise(ONE)), 2_000);
    assert!(loud.iter().any(|(l, _)| l.abs() > 0.1));
    assert!(loud.iter().all(|(l, _)| l.abs() <= 1.0));
}
