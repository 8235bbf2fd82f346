//! The generic synth voice: oscillator, at most one filter, distortion,
//! live amplitude, stereo split, reverb.

use vstd::prelude::*;
use crate::components::effect::{Delay, Distortion, Reverb};
use crate::components::filter::{BandPass, HighPass, LowPass};
use crate::components::synth::{Amplitude, Frequency, OscillatorType};
use crate::dsp::design::split_signal;
use crate::dsp::graph::{out, Graph, GraphView, Port};
use crate::dsp::signal::{apply, output_signal, signal_at, Signal};
use crate::dsp::param::{ParamHandle, ParamView};
use crate::dsp::unit::{ParamSlot, ReverbUnit, UnitKind};
use crate::fixed::clamp_spec;

verus! {

/// Lowest and highest oscillator frequency and filter cutoff, in hertz.
pub const FREQ_MIN: i64 = 20_000_000;

pub const FREQ_MAX: i64 = 20_000_000_000;

/// Range of the amplitude.
pub const AMP_MIN: i64 = 0;

pub const AMP_MAX: i64 = 1_000_000;

/// Range of the resonance of the low-pass filter.
pub const RESONANCE_MIN: i64 = 100_000;

pub const RESONANCE_MAX: i64 = 10_000_000;

/// Range of the bandwidth of the band-pass filter, in hertz.
pub const BANDWIDTH_MIN: i64 = 10_000_000;

pub const BANDWIDTH_MAX: i64 = 5_000_000_000;

/// Modulation speed and damping cutoff of the voice's reverb.
pub const REVERB_MODULATION: i64 = 1_000_000;

pub const REVERB_DAMPING_HZ: i64 = 6_000_000_000;

/// The live parameters of a synth voice.
pub struct SynthParams {
    pub frequency: ParamHandle,
    pub amplitude: ParamHandle,
    pub filter_cutoff: Option<ParamHandle>,
    pub filter_resonance: Option<ParamHandle>,
}

/// The live parameters of a synth voice as the contracts see them.
pub struct SynthParamsView {
    pub frequency: ParamView,
    pub amplitude: ParamView,
    pub filter_cutoff: Option<ParamView>,
    pub filter_resonance: Option<ParamView>,
}

/// The view of a handle that may be absent.
pub open spec fn handle_view(h: Option<ParamHandle>) -> Option<ParamView> {
    match h {
        Some(h) => Some(h@),
        None => None,
    }
}

impl View for SynthParams {
    type V = SynthParamsView;

    open spec fn view(&self) -> SynthParamsView {
        SynthParamsView {
            frequency: self.frequency@,
            amplitude: self.amplitude@,
            filter_cutoff: handle_view(self.filter_cutoff),
            filter_resonance: handle_view(self.filter_resonance),
        }
    }
}

/// A cell named `name` with range `[min, max]` that holds `initial` clamped to it.
pub open spec fn cell(name: Seq<char>, initial: i64, min: i64, max: i64) -> ParamView {
    ParamView { name, min, max, value: clamp_spec(initial as int, min as int, max as int) as i64 }
}

/// Which filter a voice gets: the low-pass if one is configured, else the
/// high-pass, else the band-pass.
pub enum FilterChoice {
    LowPass(LowPass),
    HighPass(HighPass),
    BandPass(BandPass),
    Bypass,
}

/// The filter that the voice gets out of the three that may be configured.
pub open spec fn choose_filter(
    low_pass: Option<&LowPass>,
    high_pass: Option<&HighPass>,
    band_pass: Option<&BandPass>,
) -> FilterChoice {
    if let Some(lp) = low_pass {
        FilterChoice::LowPass(*lp)
    } else if let Some(hp) = high_pass {
        FilterChoice::HighPass(*hp)
    } else if let Some(bp) = band_pass {
        FilterChoice::BandPass(*bp)
    } else {
        FilterChoice::Bypass
    }
}

/// The order of the filters is total: a low-pass beats the other two, a
/// high-pass beats the band-pass, and whatever is beaten has no effect.
pub proof fn lemma_filter_priority(
    low_pass: Option<&LowPass>,
    high_pass: Option<&HighPass>,
    band_pass: Option<&BandPass>,
)
    ensures
        low_pass is Some ==> choose_filter(low_pass, high_pass, band_pass)
            == FilterChoice::LowPass(*low_pass->0) && choose_filter(
            low_pass,
            high_pass,
            band_pass,
        ) == choose_filter(low_pass, None, None),
        low_pass is None && high_pass is Some ==> choose_filter(low_pass, high_pass, band_pass)
            == FilterChoice::HighPass(*high_pass->0) && choose_filter(
            low_pass,
            high_pass,
            band_pass,
        ) == choose_filter(None, high_pass, None),
        low_pass is None && high_pass is None && band_pass is Some ==> choose_filter(
            low_pass,
            high_pass,
            band_pass,
        ) == FilterChoice::BandPass(*band_pass->0),
        low_pass is None && high_pass is None && band_pass is None ==> choose_filter(
            low_pass,
            high_pass,
            band_pass,
        ) == FilterChoice::Bypass,
{
}

/// The oscillator stage: noise, or an oscillator that runs at the live frequency.
pub open spec fn with_oscillator(g: GraphView, osc: OscillatorType) -> GraphView {
    if osc == OscillatorType::Noise {
        g.with_node(UnitKind::Oscillator { wave: osc, freq: None }, seq![])
    } else {
        g.with_node(UnitKind::Param(ParamSlot::Frequency), seq![]).chain(
            UnitKind::Oscillator { wave: osc, freq: None },
        )
    }
}

/// A filter of kind `kind` on the signal of the node added last, steered by
/// the live cutoff and resonance.
pub open spec fn with_live_filter(g: GraphView, kind: UnitKind) -> GraphView {
    let signal = g.tail();
    let cutoff = Port { node: g.nodes.len() as usize, port: 0 };
    let resonance = Port { node: (g.nodes.len() + 1) as usize, port: 0 };
    g.with_node(UnitKind::Param(ParamSlot::FilterCutoff), seq![]).with_node(
        UnitKind::Param(ParamSlot::FilterResonance),
        seq![],
    ).with_node(kind, seq![Some(signal), Some(cutoff), Some(resonance)])
}

/// A high-pass on the signal of the node added last, steered by the live cutoff.
pub open spec fn with_live_high_pass(g: GraphView) -> GraphView {
    let signal = g.tail();
    let cutoff = Port { node: g.nodes.len() as usize, port: 0 };
    g.with_node(UnitKind::Param(ParamSlot::FilterCutoff), seq![]).with_node(
        UnitKind::HighPole(None),
        seq![Some(signal), Some(cutoff)],
    )
}

/// The filter stage.
pub open spec fn with_filter(g: GraphView, filter: FilterChoice) -> GraphView {
    match filter {
        FilterChoice::LowPass(_) => with_live_filter(g, UnitKind::Moog),
        FilterChoice::HighPass(_) => with_live_high_pass(g),
        FilterChoice::BandPass(_) => with_live_filter(g, UnitKind::BandPass(None)),
        FilterChoice::Bypass => g,
    }
}

/// The distortion stage.
pub open spec fn with_distortion(g: GraphView, distortion: Option<&Distortion>) -> GraphView {
    match distortion {
        Some(d) => g.chain(UnitKind::Distortion { drive: d.drive, mix: d.mix }),
        None => g,
    }
}

/// The amplitude stage: the signal times the live amplitude.
pub open spec fn with_amplitude(g: GraphView) -> GraphView {
    let signal = g.tail();
    let amplitude = Port { node: g.nodes.len() as usize, port: 0 };
    g.with_node(UnitKind::Param(ParamSlot::Amplitude), seq![]).with_node(
        UnitKind::Multiply,
        seq![Some(signal), Some(amplitude)],
    )
}

/// The reverb unit that a voice's reverb setting asks for.
pub open spec fn voice_reverb(r: &Reverb) -> ReverbUnit {
    ReverbUnit {
        room_size: r.room_size,
        time: r.decay_time,
        diffusion: r.damping,
        modulation: REVERB_MODULATION,
        damping_cutoff: REVERB_DAMPING_HZ,
    }
}

/// The output stage: the mono signal split to stereo and, where a reverb is
/// configured, both channels passed through it; the result bound to the two outputs.
pub open spec fn with_stereo_out(g: GraphView, reverb: Option<&Reverb>) -> GraphView {
    let split = g.nodes.len() as usize;
    let s = g.chain(UnitKind::Split);
    match reverb {
        Some(r) => {
            let wet = (g.nodes.len() + 1) as usize;
            s.with_node(
                UnitKind::Reverb(voice_reverb(r)),
                seq![Some(Port { node: split, port: 0 }), Some(Port { node: split, port: 1 })],
            ).bind_output(Port { node: wet, port: 0 }, 0).bind_output(
                Port { node: wet, port: 1 },
                1,
            )
        },
        None => s.bind_output(Port { node: split, port: 0 }, 0).bind_output(
            Port { node: split, port: 1 },
            1,
        ),
    }
}

/// The graph of a synth voice.
pub open spec fn synth_graph(
    osc: OscillatorType,
    filter: FilterChoice,
    reverb: Option<&Reverb>,
    distortion: Option<&Distortion>,
) -> GraphView {
    with_stereo_out(
        with_amplitude(
            with_distortion(
                with_filter(with_oscillator(GraphView::empty(0, 2), osc), filter),
                distortion,
            ),
        ),
        reverb,
    )
}

/// The live parameters of a synth voice.
pub open spec fn synth_params(freq: i64, amp: i64, filter: FilterChoice) -> SynthParamsView {
    SynthParamsView {
        frequency: cell("frequency"@, freq, FREQ_MIN, FREQ_MAX),
        amplitude: cell("amplitude"@, amp, AMP_MIN, AMP_MAX),
        filter_cutoff: match filter {
            FilterChoice::LowPass(lp) => Some(
                cell("filter_cutoff"@, lp.cutoff_hz, FREQ_MIN, FREQ_MAX),
            ),
            FilterChoice::HighPass(hp) => Some(
                cell("filter_cutoff"@, hp.cutoff_hz, FREQ_MIN, FREQ_MAX),
            ),
            FilterChoice::BandPass(bp) => Some(
                cell("filter_cutoff"@, bp.center_hz, FREQ_MIN, FREQ_MAX),
            ),
            FilterChoice::Bypass => None,
        },
        filter_resonance: match filter {
            FilterChoice::LowPass(lp) => Some(
                cell("filter_resonance"@, lp.resonance, RESONANCE_MIN, RESONANCE_MAX),
            ),
            FilterChoice::BandPass(bp) => Some(
                cell("filter_resonance"@, bp.bandwidth, BANDWIDTH_MIN, BANDWIDTH_MAX),
            ),
            _ => None,
        },
    }
}

/// The signal of a live parameter.
pub open spec fn param_signal(slot: ParamSlot) -> Signal {
    apply(UnitKind::Param(slot), seq![])
}

/// The signal of the oscillator stage.
pub open spec fn oscillator_signal(osc: OscillatorType) -> Signal {
    if osc == OscillatorType::Noise {
        apply(UnitKind::Oscillator { wave: osc, freq: None }, seq![])
    } else {
        apply(
            UnitKind::Oscillator { wave: osc, freq: None },
            seq![param_signal(ParamSlot::Frequency)],
        )
    }
}

/// `signal` through the filter stage.
pub open spec fn filtered(signal: Signal, filter: FilterChoice) -> Signal {
    match filter {
        FilterChoice::LowPass(_) => apply(
            UnitKind::Moog,
            seq![
                signal,
                param_signal(ParamSlot::FilterCutoff),
                param_signal(ParamSlot::FilterResonance),
            ],
        ),
        FilterChoice::HighPass(_) => apply(
            UnitKind::HighPole(None),
            seq![signal, param_signal(ParamSlot::FilterCutoff)],
        ),
        FilterChoice::BandPass(_) => apply(
            UnitKind::BandPass(None),
            seq![
                signal,
                param_signal(ParamSlot::FilterCutoff),
                param_signal(ParamSlot::FilterResonance),
            ],
        ),
        FilterChoice::Bypass => signal,
    }
}

/// `signal` through the distortion stage.
pub open spec fn distorted(signal: Signal, distortion: Option<&Distortion>) -> Signal {
    match distortion {
        Some(d) => apply(UnitKind::Distortion { drive: d.drive, mix: d.mix }, seq![signal]),
        None => signal,
    }
}

/// `signal` times the live amplitude.
pub open spec fn amplified(signal: Signal) -> Signal {
    apply(UnitKind::Multiply, seq![signal, param_signal(ParamSlot::Amplitude)])
}

/// Channel `channel` of the output stage on the mono signal `signal`.
pub open spec fn voiced(signal: Signal, reverb: Option<&Reverb>, channel: usize) -> Signal {
    match reverb {
        Some(r) => Signal::Unit {
            kind: UnitKind::Reverb(voice_reverb(r)),
            port: channel,
            inputs: seq![split_signal(signal, 0), split_signal(signal, 1)],
        },
        None => split_signal(signal, channel),
    }
}

/// What channel `channel` of a synth voice sounds like: the oscillator
/// through filter and distortion, times the live amplitude, split to stereo
/// and reverberated.
pub open spec fn voice_signal(
    osc: OscillatorType,
    filter: FilterChoice,
    reverb: Option<&Reverb>,
    distortion: Option<&Distortion>,
    channel: usize,
) -> Signal {
    voiced(
        amplified(distorted(filtered(oscillator_signal(osc), filter), distortion)),
        reverb,
        channel,
    )
}

/// Adds the oscillator stage to an empty graph.
fn add_oscillator(net: &mut Graph, osc_type: &OscillatorType)
    requires
        old(net)@ == GraphView::empty(0, 2),
    ensures
        final(net)@ == with_oscillator(old(net)@, *osc_type),
        final(net)@.chainable(),
        signal_at(final(net)@, final(net)@.tail()) == oscillator_signal(*osc_type),
{
    assert(old(net)@.wf() && old(net)@.feed_forward());
    match osc_type {
        OscillatorType::Noise => {
            net.leaf(UnitKind::Oscillator { wave: OscillatorType::Noise, freq: None });
        },
        _ => {
            let freq_id = net.leaf(UnitKind::Param(ParamSlot::Frequency));
            net.unary(UnitKind::Oscillator { wave: *osc_type, freq: None }, out(freq_id));
        },
    }
}

/// Adds a filter of kind `kind` with live cutoff and resonance.
fn add_live_filter(net: &mut Graph, kind: UnitKind)
    requires
        old(net)@.chainable(),
        kind.input_count() == 3,
    ensures
        final(net)@ == with_live_filter(old(net)@, kind),
        final(net)@.chainable(),
        signal_at(final(net)@, final(net)@.tail()) == apply(
            kind,
            seq![
                signal_at(old(net)@, old(net)@.tail()),
                param_signal(ParamSlot::FilterCutoff),
                param_signal(ParamSlot::FilterResonance),
            ],
        ),
{
    let signal = out(net.size() - 1);
    let cutoff_id = net.leaf(UnitKind::Param(ParamSlot::FilterCutoff));
    let res_id = net.leaf(UnitKind::Param(ParamSlot::FilterResonance));
    net.ternary(kind, signal, out(cutoff_id), out(res_id));
}

/// Adds a high-pass with live cutoff.
fn add_live_high_pass(net: &mut Graph)
    requires
        old(net)@.chainable(),
    ensures
        final(net)@ == with_live_high_pass(old(net)@),
        final(net)@.chainable(),
        signal_at(final(net)@, final(net)@.tail()) == apply(
            UnitKind::HighPole(None),
            seq![signal_at(old(net)@, old(net)@.tail()), param_signal(ParamSlot::FilterCutoff)],
        ),
{
    let signal = out(net.size() - 1);
    let cutoff_id = net.leaf(UnitKind::Param(ParamSlot::FilterCutoff));
    net.binary(UnitKind::HighPole(None), signal, out(cutoff_id));
}

/// Adds a unit of kind `kind` that reads from the node added last.
fn add_chained(net: &mut Graph, kind: UnitKind)
    requires
        old(net)@.chainable(),
        kind.input_count() == 1,
    ensures
        final(net)@ == old(net)@.chain(kind),
        final(net)@.chainable(),
        signal_at(final(net)@, final(net)@.tail()) == apply(
            kind,
            seq![signal_at(old(net)@, old(net)@.tail())],
        ),
{
    let signal = out(net.size() - 1);
    net.unary(kind, signal);
}

/// Adds the amplitude stage.
fn add_amplitude(net: &mut Graph)
    requires
        old(net)@.chainable(),
    ensures
        final(net)@ == with_amplitude(old(net)@),
        final(net)@.chainable(),
        signal_at(final(net)@, final(net)@.tail()) == amplified(
            signal_at(old(net)@, old(net)@.tail()),
        ),
{
    let signal = out(net.size() - 1);
    let amp_id = net.leaf(UnitKind::Param(ParamSlot::Amplitude));
    net.binary(UnitKind::Multiply, signal, out(amp_id));
}

/// Adds the output stage.
fn add_stereo_out(net: &mut Graph, reverb_cfg: Option<&Reverb>)
    requires
        old(net)@.chainable(),
        old(net)@.outputs.len() == 2,
    ensures
        final(net)@ == with_stereo_out(old(net)@, reverb_cfg),
        final(net)@.wf(),
        final(net)@.feed_forward(),
        final(net)@.inputs == old(net)@.inputs,
        final(net)@.outputs.len() == 2,
        final(net)@.outputs[0] is Some,
        final(net)@.outputs[1] is Some,
        forall|channel: usize|
            channel < 2 ==> #[trigger] output_signal(final(net)@, channel as int) == voiced(
                signal_at(old(net)@, old(net)@.tail()),
                reverb_cfg,
                channel,
            ),
{
    let signal = out(net.size() - 1);
    let split_id = net.unary(UnitKind::Split, signal);
    let out_id = match reverb_cfg {
        Some(rev) => net.binary(
            UnitKind::Reverb(
                ReverbUnit {
                    room_size: rev.room_size,
                    time: rev.decay_time,
                    diffusion: rev.damping,
                    modulation: REVERB_MODULATION,
                    damping_cutoff: REVERB_DAMPING_HZ,
                },
            ),
            Port { node: split_id, port: 0 },
            Port { node: split_id, port: 1 },
        ),
        None => split_id,
    };
    let left = net.connect_output(out_id, 0, 0);
    let right = net.connect_output(out_id, 1, 1);
}

/// Builds the graph of a synth voice and the handles of its live parameters.
///
/// The chain is oscillator, filter, distortion, amplitude, stereo split,
/// reverb.  Of the three filters at most one is used: the low-pass if it is
/// configured, else the high-pass, else the band-pass; the others are
/// ignored.  Whichever filter is used reads its cutoff from the live
/// cutoff cell.  The reverb has no live parameter, and a delay setting has
/// no effect.
pub fn build_synth_graph(
    osc_type: &OscillatorType,
    freq: &Frequency,
    amp: &Amplitude,
    low_pass: Option<&LowPass>,
    high_pass: Option<&HighPass>,
    band_pass: Option<&BandPass>,
    reverb_cfg: Option<&Reverb>,
    _delay: Option<&Delay>,
    distortion: Option<&Distortion>,
) -> (r: (Graph, SynthParams))
    ensures
        r.0@ == synth_graph(
            *osc_type,
            choose_filter(low_pass, high_pass, band_pass),
            reverb_cfg,
            distortion,
        ),
        r.0@.wf(),
        r.0@.feed_forward(),
        r.0@.stereo_source(),
        forall|channel: usize|
            channel < 2 ==> #[trigger] output_signal(r.0@, channel as int) == voice_signal(
                *osc_type,
                choose_filter(low_pass, high_pass, band_pass),
                reverb_cfg,
                distortion,
                channel,
            ),
        r.1@ == synth_params(freq.0, amp.0, choose_filter(low_pass, high_pass, band_pass)),
{
    let freq_param = ParamHandle::new("frequency", freq.0, FREQ_MIN, FREQ_MAX);
    let amp_param = ParamHandle::new("amplitude", amp.0, AMP_MIN, AMP_MAX);
    let mut filter_cutoff_param: Option<ParamHandle> = None;
    let mut filter_resonance_param: Option<ParamHandle> = None;

    let mut net = Graph::new(0, 2);
    add_oscillator(&mut net, osc_type);

    // At most one filter: low-pass before high-pass before band-pass.
    if let Some(lp) = low_pass {
        add_live_filter(&mut net, UnitKind::Moog);
        filter_cutoff_param = Some(
            ParamHandle::new("filter_cutoff", lp.cutoff_hz, FREQ_MIN, FREQ_MAX),
        );
        filter_resonance_param = Some(
            ParamHandle::new("filter_resonance", lp.resonance, RESONANCE_MIN, RESONANCE_MAX),
        );
    } else if let Some(hp) = high_pass {
        add_live_high_pass(&mut net);
        filter_cutoff_param = Some(
            ParamHandle::new("filter_cutoff", hp.cutoff_hz, FREQ_MIN, FREQ_MAX),
        );
    } else if let Some(bp) = band_pass {
        add_live_filter(&mut net, UnitKind::BandPass(None));
        filter_cutoff_param = Some(
            ParamHandle::new("filter_cutoff", bp.center_hz, FREQ_MIN, FREQ_MAX),
        );
        filter_resonance_param = Some(
            ParamHandle::new("filter_resonance", bp.bandwidth, BANDWIDTH_MIN, BANDWIDTH_MAX),
        );
    }
    if let Some(dist) = distortion {
        add_chained(&mut net, UnitKind::Distortion { drive: dist.drive, mix: dist.mix });
    }
    // The amplitude stays live: a product of two signals, not a fixed gain.

    add_amplitude(&mut net);
    add_stereo_out(&mut net, reverb_cfg);

    let params = SynthParams {
        frequency: freq_param,
        amplitude: amp_param,
        filter_cutoff: filter_cutoff_param,
        filter_resonance: filter_resonance_param,
    };
    (net, params)
}

} // verus!
