//! Layered sound designs and their assembly into signal graphs.
//!
//! A one-shot sound is a sum of layers.  Each layer is a signal source
//! multiplied by an envelope that is exactly 0 once its cutoff has passed.
//! The sum may pass through two cascaded low-pass poles; it is then split to
//! stereo and, where a reverb is asked for, each channel is cross-faded with
//! the reverberated signal.

use vstd::prelude::*;
use crate::dsp::graph::{out, Graph, GraphView, Port};
use crate::dsp::signal::{
    apply, lemma_signals_kept, mute_at, output_signal, signal_at, signals_kept, Signal,
};
use crate::dsp::unit::{BandShape, Control, Envelope, ReverbUnit, UnitKind};
use crate::components::synth::OscillatorType;
use crate::fixed::ONE;

verus! {

/// One sine of a cluster: its frequency in hertz and its share of the sum.
#[derive(Clone, Copy, Debug, PartialEq, Eq)]
pub struct Partial {
    pub freq: i64,
    pub weight: i64,
}

/// The signal source of a layer.
#[derive(Debug, PartialEq, Eq)]
pub enum Source {
    /// White noise.
    Noise,
    /// White noise through one low-pass pole at `cutoff`, or two where `steep` is set.
    LowNoise { cutoff: i64, steep: bool },
    /// White noise through a band-pass.
    BandNoise { shape: BandShape },
    /// White noise through a low-pass pole whose cutoff follows `cutoff`.
    SweptNoise { sweep: Control },
    /// A sine at `carrier` hertz whose frequency is modulated by a sine at
    /// `modulator` hertz with the depth that `index` gives.
    Fm { carrier: i64, modulator: i64, index: Control },
    /// A sine whose frequency follows `freq`, with a vibrato of `vibrato_depth`
    /// hertz at `vibrato_rate` hertz.
    SweptSine { freq: Control, vibrato_rate: i64, vibrato_depth: i64 },
    /// The weighted sum of sines, times `gain`.
    Sines { partials: Vec<Partial>, gain: i64 },
}

/// A source as the contracts see it.
pub enum SourceView {
    Noise,
    LowNoise { cutoff: i64, steep: bool },
    BandNoise { shape: BandShape },
    SweptNoise { sweep: Control },
    Fm { carrier: i64, modulator: i64, index: Control },
    SweptSine { freq: Control, vibrato_rate: i64, vibrato_depth: i64 },
    Sines { partials: Seq<Partial>, gain: i64 },
}

impl View for Source {
    type V = SourceView;

    open spec fn view(&self) -> SourceView {
        match *self {
            Source::Noise => SourceView::Noise,
            Source::LowNoise { cutoff, steep } => SourceView::LowNoise { cutoff, steep },
            Source::BandNoise { shape } => SourceView::BandNoise { shape },
            Source::SweptNoise { sweep } => SourceView::SweptNoise { sweep },
            Source::Fm { carrier, modulator, index } => SourceView::Fm { carrier, modulator, index },
            Source::SweptSine { freq, vibrato_rate, vibrato_depth } => SourceView::SweptSine {
                freq,
                vibrato_rate,
                vibrato_depth,
            },
            Source::Sines { partials, gain } => SourceView::Sines { partials: partials@, gain },
        }
    }
}

/// A layer: a source shaped by an envelope.
#[derive(Debug, PartialEq, Eq)]
pub struct Layer {
    pub source: Source,
    pub envelope: Envelope,
}

/// A layer as the contracts see it.
pub struct LayerView {
    pub source: SourceView,
    pub envelope: Envelope,
}

impl View for Layer {
    type V = LayerView;

    open spec fn view(&self) -> LayerView {
        LayerView { source: self.source@, envelope: self.envelope }
    }
}

/// A reverb and the shares of the output that the dry and the reverberated
/// signal get.
#[derive(Clone, Copy, Debug, PartialEq, Eq)]
pub struct ReverbSend {
    pub unit: ReverbUnit,
    pub dry: i64,
    pub wet: i64,
}

/// A one-shot sound: its layers, the cutoff of the two low-pass poles after
/// their sum (if any), and the reverb (if any).
#[derive(Debug, PartialEq, Eq)]
pub struct SoundDesign {
    pub layers: Vec<Layer>,
    pub lowpass: Option<i64>,
    pub reverb: Option<ReverbSend>,
}

/// A sound design as the contracts see it.
pub struct SoundDesignView {
    pub layers: Seq<LayerView>,
    pub lowpass: Option<i64>,
    pub reverb: Option<ReverbSend>,
}

impl View for SoundDesign {
    type V = SoundDesignView;

    open spec fn view(&self) -> SoundDesignView {
        SoundDesignView {
            layers: Seq::new(self.layers@.len(), |i: int| self.layers@[i]@),
            lowpass: self.lowpass,
            reverb: self.reverb,
        }
    }
}

/// Whether `t` is the latest cutoff of the envelopes of `layers`, or 0 where there is no layer.
pub open spec fn is_latest_cutoff(layers: Seq<LayerView>, t: i64) -> bool {
    &&& forall|i: int| 0 <= i < layers.len() ==> (#[trigger] layers[i]).envelope.cutoff <= t
    &&& if layers.len() == 0 {
        t == 0
    } else {
        exists|i: int| 0 <= i < layers.len() && (#[trigger] layers[i]).envelope.cutoff == t
    }
}

impl SoundDesign {
    /// The time after which every layer of the design is exactly 0: the
    /// latest cutoff of its envelopes.
    pub fn silent_after(&self) -> (t: i64)
        ensures
            is_latest_cutoff(self@.layers, t),
    {
        if self.layers.len() == 0 {
            return 0;
        }
        let mut latest: i64 = self.layers[0].envelope.cutoff;
        assert(self@.layers[0].envelope.cutoff == latest);
        let mut i: usize = 1;
        while i < self.layers.len()
            invariant
                1 <= i <= self.layers.len(),
                forall|k: int| 0 <= k < i ==> (#[trigger] self@.layers[k]).envelope.cutoff <= latest,
                exists|k: int| 0 <= k < i && (#[trigger] self@.layers[k]).envelope.cutoff == latest,
            decreases self.layers.len() - i,
        {
            let cutoff: i64 = self.layers[i].envelope.cutoff;
            assert(self@.layers[i as int].envelope.cutoff == cutoff);
            if cutoff > latest {
                latest = cutoff;
            }
            i += 1;
        }
        latest
    }
}

/// Once the latest cutoff of a design has passed, every one of its layers is silent.
pub proof fn lemma_silent_after(layers: Seq<LayerView>, latest: i64, i: int, t: int)
    requires
        is_latest_cutoff(layers, latest),
        0 <= i < layers.len(),
        t > latest,
    ensures
        layers[i].envelope.silent_at(t),
{
}

/// What a wet share of `mix` does to a design.  At a share of 0, or less,
/// there is no reverb: the output is the dry signal alone.  At every share
/// above 0 the dry and the reverberated signal are cross-faded with weights
/// that add up to `ONE`; at a share of `ONE` the dry signal has no weight
/// left.
pub proof fn lemma_crossfade_weights(unit: ReverbUnit, mix: i64)
    ensures
        mix <= 0 ==> reverb_send_spec(unit, mix) is None,
        mix > 0 ==> reverb_send_spec(unit, mix) == Some(
            ReverbSend { unit, dry: (ONE - mix) as i64, wet: mix },
        ) && (ONE - mix) as i64 + mix == ONE,
        mix == ONE ==> reverb_send_spec(unit, mix) == Some(ReverbSend { unit, dry: 0, wet: ONE }),
        mix == 0 ==> reverb_send_spec(unit, mix) is None,
{
}

/// A sum of signals that are all exactly 0 is exactly 0.
pub proof fn lemma_sum_mute(signals: Seq<Signal>, t: int)
    requires
        forall|k: int| 0 <= k < signals.len() ==> mute_at(#[trigger] signals[k], t),
    ensures
        mute_at(sum_signal(signals), t),
    decreases signals.len(),
{
    if signals.len() >= 2 {
        let rest = signals.drop_last();
        assert forall|k: int| 0 <= k < rest.len() implies mute_at(#[trigger] rest[k], t) by {
            assert(rest[k] == signals[k]);
        }
        lemma_sum_mute(rest, t);
        let sum = fold_signal(UnitKind::Add, signals);
        assert(sum->inputs[0] == fold_signal(UnitKind::Add, rest));
        assert(sum->inputs[1] == signals.last());
        assert(mute_at(signals[signals.len() - 1], t));
        assert forall|j: int| 0 <= j < sum->inputs.len() implies mute_at(
            #[trigger] sum->inputs[j],
            t,
        ) by {}
    } else if signals.len() == 1 {
        assert(mute_at(signals[0], t));
    }
}

/// A design without low-pass and without reverb is exactly 0 on both
/// channels once its latest cutoff has passed: every layer is a product
/// with an envelope that is past its cutoff, and nothing after the layers
/// remembers what it has read.
pub proof fn lemma_dry_design_falls_silent(
    design: SoundDesignView,
    latest: i64,
    channel: usize,
    t: int,
)
    requires
        design.lowpass is None,
        design.reverb is None,
        is_latest_cutoff(design.layers, latest),
        t > latest,
    ensures
        mute_at(design_signal(design, channel), t),
{
    let layers = Seq::new(design.layers.len(), |k: int| layer_signal(design.layers[k]));
    assert forall|k: int| 0 <= k < layers.len() implies mute_at(#[trigger] layers[k], t) by {
        let layer = design.layers[k];
        assert(layers[k] == layer_signal(layer));
        let factors = layer_signal(layer)->inputs;
        assert(layer.envelope.cutoff <= latest);
        assert(mute_at(factors[1], t));
    }
    lemma_sum_mute(layers, t);
    let mix = mix_signal(design);
    let split = split_signal(mix, channel);
    assert(split->inputs[0] == mix);
    assert(design_signal(design, channel) == split);
}

/// What a wet share of `mix` does to a channel.  At a share of 0, or less,
/// the channel carries the split signal alone, as if no reverb existed.  At
/// every share above 0 it carries `(1 - mix) * split + mix * reverb(split)`,
/// the linear blend of the dry and the reverberated signal.
pub proof fn lemma_dry_wet(signal: Signal, unit: ReverbUnit, mix: i64, channel: usize)
    ensures
        mix <= 0 ==> staged_signal(signal, reverb_send_spec(unit, mix), channel)
            == split_signal(signal, channel),
        mix > 0 ==> staged_signal(signal, reverb_send_spec(unit, mix), channel)
            == apply(
            UnitKind::Crossfade { dry: (ONE - mix) as i64, wet: mix },
            seq![
                split_signal(signal, channel),
                (Signal::Unit {
                    kind: UnitKind::Reverb(unit),
                    port: channel,
                    inputs: seq![split_signal(signal, 0), split_signal(signal, 1)],
                }),
            ],
        ),
{
}

/// The reverb send for a wet share of `mix`: none unless `mix` exceeds 0;
/// else the reverberated signal gets `mix` and the dry one the rest of `ONE`.
pub open spec fn reverb_send_spec(unit: ReverbUnit, mix: i64) -> Option<ReverbSend> {
    if mix > 0 {
        Some(ReverbSend { unit, dry: (ONE - mix) as i64, wet: mix })
    } else {
        None
    }
}

/// The reverb send for a wet share of `mix`.
pub fn reverb_send(unit: ReverbUnit, mix: i64) -> (r: Option<ReverbSend>)
    ensures
        r == reverb_send_spec(unit, mix),
        r matches Some(send) ==> send.dry + send.wet == ONE,
{
    if mix > 0 {
        Some(ReverbSend { unit, dry: ONE - mix, wet: mix })
    } else {
        None
    }
}

/// A noise generator.
pub open spec fn noise() -> UnitKind {
    UnitKind::Oscillator { wave: OscillatorType::Noise, freq: None }
}

/// A sine oscillator at a fixed frequency.
pub open spec fn sine_hz(freq: i64) -> UnitKind {
    UnitKind::Oscillator { wave: OscillatorType::Sine, freq: Some(freq) }
}

/// A sine oscillator whose input is its frequency.
pub open spec fn sine() -> UnitKind {
    UnitKind::Oscillator { wave: OscillatorType::Sine, freq: None }
}

/// Output 0 of the node with index `node`.
pub open spec fn port0(node: nat) -> Port {
    Port { node: node as usize, port: 0 }
}

/// The graph with one oscillator and one gain per partial.
pub open spec fn with_partials(g: GraphView, partials: Seq<Partial>) -> GraphView
    decreases partials.len(),
{
    if partials.len() == 0 {
        g
    } else {
        with_partials(g, partials.drop_last()).with_node(
            sine_hz(partials.last().freq),
            seq![],
        ).chain(UnitKind::Gain(partials.last().weight))
    }
}

/// The outputs of the gains that `with_partials` adds to a graph of `base` nodes.
pub open spec fn partial_outs(base: nat, count: nat) -> Seq<Port> {
    Seq::new(count, |k: int| port0((base + 2 * k + 1) as nat))
}

/// The graph with `ports` folded from left to right by two-input units of
/// kind `kind`: `((first . second) . third) . ...`.  A single port needs no unit.
pub open spec fn with_fold(g: GraphView, kind: UnitKind, ports: Seq<Port>) -> GraphView
    decreases ports.len(),
{
    if ports.len() <= 1 {
        g
    } else {
        let h = with_fold(g, kind, ports.drop_last());
        let left = if ports.len() == 2 {
            ports[0]
        } else {
            h.tail()
        };
        h.with_node(kind, seq![Some(left), Some(ports.last())])
    }
}

/// The graph with the sum of `ports`: a constant 0 where there is none,
/// else the ports folded by addition.
pub open spec fn with_sum(g: GraphView, ports: Seq<Port>) -> GraphView {
    if ports.len() == 0 {
        g.with_node(UnitKind::Constant(0), seq![])
    } else {
        with_fold(g, UnitKind::Add, ports)
    }
}

/// The graph with the product of `ports`: a constant 1 where there is none,
/// else the ports folded by multiplication.
pub open spec fn with_product(g: GraphView, ports: Seq<Port>) -> GraphView {
    if ports.len() == 0 {
        g.with_node(UnitKind::Constant(ONE), seq![])
    } else {
        with_fold(g, UnitKind::Multiply, ports)
    }
}

/// The port that carries the sum or the product of `ports` in `h`, the
/// graph with that sum or product: the port itself where there is one
/// alone, else the node added last.
pub open spec fn folded_out(h: GraphView, ports: Seq<Port>) -> Port {
    if ports.len() == 1 {
        ports[0]
    } else {
        h.tail()
    }
}

/// The graph with the nodes of a source added; the source's signal is
/// output 0 of the node added last.
pub open spec fn with_source(g: GraphView, source: SourceView) -> GraphView {
    let n = g.nodes.len();
    match source {
        SourceView::Noise => g.with_node(noise(), seq![]),
        SourceView::LowNoise { cutoff, steep } => {
            let once = g.with_node(noise(), seq![]).chain(UnitKind::LowPole(Some(cutoff)));
            if steep {
                once.chain(UnitKind::LowPole(Some(cutoff)))
            } else {
                once
            }
        },
        SourceView::BandNoise { shape } => g.with_node(noise(), seq![]).chain(
            UnitKind::BandPass(Some(shape)),
        ),
        SourceView::SweptNoise { sweep } => g.with_node(noise(), seq![]).with_node(
            UnitKind::Control(sweep),
            seq![],
        ).with_node(UnitKind::LowPole(None), seq![Some(port0(n)), Some(port0(n + 1))]),
        SourceView::Fm { carrier, modulator, index } => g.with_node(
            UnitKind::Constant(carrier),
            seq![],
        ).with_node(sine_hz(modulator), seq![]).with_node(UnitKind::Control(index), seq![]).with_node(
            UnitKind::Multiply,
            seq![Some(port0(n + 1)), Some(port0(n + 2))],
        ).with_node(UnitKind::Add, seq![Some(port0(n)), Some(port0(n + 3))]).chain(sine()),
        SourceView::SweptSine { freq, vibrato_rate, vibrato_depth } => g.with_node(
            UnitKind::Control(freq),
            seq![],
        ).with_node(sine_hz(vibrato_rate), seq![]).chain(UnitKind::Gain(vibrato_depth)).with_node(
            UnitKind::Add,
            seq![Some(port0(n)), Some(port0(n + 2))],
        ).chain(sine()),
        SourceView::Sines { partials, gain } => with_sum(
            with_partials(g, partials),
            partial_outs(n, partials.len()),
        ).chain(UnitKind::Gain(gain)),
    }
}

/// The graph with a new unit of kind `kind`, which has no input, and the
/// product of the node added last and that unit.
pub open spec fn with_factor(g: GraphView, kind: UnitKind) -> GraphView {
    g.with_node(kind, seq![]).with_node(
        UnitKind::Multiply,
        seq![Some(g.tail()), Some(port0(g.nodes.len()))],
    )
}

/// The graph with a layer added: its source, its envelope, and their
/// product, which is the node added last.
pub open spec fn with_layer(g: GraphView, layer: LayerView) -> GraphView {
    with_factor(
        with_source(g, layer.source),
        UnitKind::Control(Control::Envelope(layer.envelope)),
    )
}

/// The graph with all of `layers` added, in order.
pub open spec fn with_layers(g: GraphView, layers: Seq<LayerView>) -> GraphView
    decreases layers.len(),
{
    if layers.len() == 0 {
        g
    } else {
        with_layer(with_layers(g, layers.drop_last()), layers.last())
    }
}

/// The output of each of `layers` once `with_layers` has added them to `g`.
pub open spec fn layer_outs(g: GraphView, layers: Seq<LayerView>) -> Seq<Port>
    decreases layers.len(),
{
    if layers.len() == 0 {
        Seq::empty()
    } else {
        layer_outs(g, layers.drop_last()).push(with_layers(g, layers).tail())
    }
}

/// The graph with two cascaded low-pass poles on the node added last, where a cutoff is given.
pub open spec fn with_lowpass(g: GraphView, lowpass: Option<i64>) -> GraphView {
    match lowpass {
        Some(cutoff) => g.chain(UnitKind::LowPole(Some(cutoff))).chain(
            UnitKind::LowPole(Some(cutoff)),
        ),
        None => g,
    }
}

/// The cross-fade of a send.
pub open spec fn crossfade(send: ReverbSend) -> UnitKind {
    UnitKind::Crossfade { dry: send.dry, wet: send.wet }
}

/// The output stage of a design: the node added last split to stereo and
/// bound to the two outputs, each channel cross-faded with the reverb where
/// there is one.
pub open spec fn with_output(g: GraphView, reverb: Option<ReverbSend>) -> GraphView {
    let n = g.nodes.len();
    let split = g.chain(UnitKind::Split);
    let left = Port { node: n as usize, port: 0 };
    let right = Port { node: n as usize, port: 1 };
    match reverb {
        Some(send) => {
            let wet_left = Port { node: (n + 1) as usize, port: 0 };
            let wet_right = Port { node: (n + 1) as usize, port: 1 };
            split.with_node(UnitKind::Reverb(send.unit), seq![Some(left), Some(right)]).with_node(
                crossfade(send),
                seq![Some(left), Some(wet_left)],
            ).with_node(crossfade(send), seq![Some(right), Some(wet_right)]).bind_output(
                port0(n + 2),
                0,
            ).bind_output(port0(n + 3), 1)
        },
        None => split.bind_output(left, 0).bind_output(right, 1),
    }
}

/// The graph that a design stands for.
pub open spec fn assemble_spec(design: SoundDesignView) -> GraphView {
    let start = GraphView::empty(0, 2);
    let layered = with_layers(start, design.layers);
    let mixed = with_sum(layered, layer_outs(start, design.layers));
    with_output(with_lowpass(mixed, design.lowpass), design.reverb)
}

/// The signal of a partial: its sine times its weight.
pub open spec fn partial_signal(partial: Partial) -> Signal {
    apply(UnitKind::Gain(partial.weight), seq![apply(sine_hz(partial.freq), seq![])])
}

/// `signals` folded from left to right by two-input units of kind `kind`.
pub open spec fn fold_signal(kind: UnitKind, signals: Seq<Signal>) -> Signal
    decreases signals.len(),
{
    if signals.len() <= 1 {
        signals[0]
    } else {
        apply(kind, seq![fold_signal(kind, signals.drop_last()), signals.last()])
    }
}

/// The sum of `signals`, taken from left to right; the sum of none is 0.
pub open spec fn sum_signal(signals: Seq<Signal>) -> Signal {
    if signals.len() == 0 {
        apply(UnitKind::Constant(0), seq![])
    } else {
        fold_signal(UnitKind::Add, signals)
    }
}

/// The product of `signals`, taken from left to right; the product of none is 1.
pub open spec fn product_signal(signals: Seq<Signal>) -> Signal {
    if signals.len() == 0 {
        apply(UnitKind::Constant(ONE), seq![])
    } else {
        fold_signal(UnitKind::Multiply, signals)
    }
}

/// The signal of a source.
pub open spec fn source_signal(source: SourceView) -> Signal {
    match source {
        SourceView::Noise => apply(noise(), seq![]),
        SourceView::LowNoise { cutoff, steep } => {
            let once = apply(UnitKind::LowPole(Some(cutoff)), seq![apply(noise(), seq![])]);
            if steep {
                apply(UnitKind::LowPole(Some(cutoff)), seq![once])
            } else {
                once
            }
        },
        SourceView::BandNoise { shape } => apply(
            UnitKind::BandPass(Some(shape)),
            seq![apply(noise(), seq![])],
        ),
        SourceView::SweptNoise { sweep } => apply(
            UnitKind::LowPole(None),
            seq![apply(noise(), seq![]), apply(UnitKind::Control(sweep), seq![])],
        ),
        // sine(carrier + modulator * index)
        SourceView::Fm { carrier, modulator, index } => apply(
            sine(),
            seq![
                apply(
                    UnitKind::Add,
                    seq![
                        apply(UnitKind::Constant(carrier), seq![]),
                        apply(
                            UnitKind::Multiply,
                            seq![
                                apply(sine_hz(modulator), seq![]),
                                apply(UnitKind::Control(index), seq![]),
                            ],
                        ),
                    ],
                ),
            ],
        ),
        // sine(sweep + depth * vibrato)
        SourceView::SweptSine { freq, vibrato_rate, vibrato_depth } => apply(
            sine(),
            seq![
                apply(
                    UnitKind::Add,
                    seq![
                        apply(UnitKind::Control(freq), seq![]),
                        apply(
                            UnitKind::Gain(vibrato_depth),
                            seq![apply(sine_hz(vibrato_rate), seq![])],
                        ),
                    ],
                ),
            ],
        ),
        // gain * (partial + partial + ...)
        SourceView::Sines { partials, gain } => apply(
            UnitKind::Gain(gain),
            seq![sum_signal(Seq::new(partials.len(), |k: int| partial_signal(partials[k])))],
        ),
    }
}

/// The signal of a layer: its source times its envelope.
pub open spec fn layer_signal(layer: LayerView) -> Signal {
    apply(
        UnitKind::Multiply,
        seq![
            source_signal(layer.source),
            apply(UnitKind::Control(Control::Envelope(layer.envelope)), seq![]),
        ],
    )
}

/// The sum of the layers of a design.
pub open spec fn mix_signal(design: SoundDesignView) -> Signal {
    sum_signal(Seq::new(design.layers.len(), |k: int| layer_signal(design.layers[k])))
}

/// `signal` through two cascaded low-pass poles, where a cutoff is given.
pub open spec fn lowpassed(signal: Signal, lowpass: Option<i64>) -> Signal {
    match lowpass {
        Some(cutoff) => apply(
            UnitKind::LowPole(Some(cutoff)),
            seq![apply(UnitKind::LowPole(Some(cutoff)), seq![signal])],
        ),
        None => signal,
    }
}

/// Channel `channel` of the mono signal `signal` split to stereo.
pub open spec fn split_signal(signal: Signal, channel: usize) -> Signal {
    Signal::Unit { kind: UnitKind::Split, port: channel, inputs: seq![signal] }
}

/// Channel `channel` of the output stage on the mono signal `signal`: the
/// split signal itself, or `dry * split + wet * reverb(split)` where a
/// reverb is asked for.
pub open spec fn staged_signal(signal: Signal, reverb: Option<ReverbSend>, channel: usize) -> Signal {
    match reverb {
        Some(send) => apply(
            crossfade(send),
            seq![
                split_signal(signal, channel),
                (Signal::Unit {
                    kind: UnitKind::Reverb(send.unit),
                    port: channel,
                    inputs: seq![split_signal(signal, 0), split_signal(signal, 1)],
                }),
            ],
        ),
        None => split_signal(signal, channel),
    }
}

/// What channel `channel` of a design sounds like: the sum of its layers,
/// each a source times an envelope, through the low-pass and the output stage.
pub open spec fn design_signal(design: SoundDesignView, channel: usize) -> Signal {
    staged_signal(lowpassed(mix_signal(design), design.lowpass), design.reverb, channel)
}

/// `with_partials` adds two nodes per partial and leaves the outputs alone.
pub proof fn lemma_with_partials_len(g: GraphView, partials: Seq<Partial>)
    ensures
        with_partials(g, partials).nodes.len() == g.nodes.len() + 2 * partials.len(),
        with_partials(g, partials).outputs == g.outputs,
        with_partials(g, partials).inputs == g.inputs,
    decreases partials.len(),
{
    if partials.len() > 0 {
        lemma_with_partials_len(g, partials.drop_last());
    }
}

/// Whether `ports` are ports of `g` that carry `signals`, one each.
pub open spec fn carry(g: GraphView, ports: Seq<Port>, signals: Seq<Signal>) -> bool {
    &&& ports.len() == signals.len()
    &&& forall|k: int|
        0 <= k < ports.len() ==> g.has_port(#[trigger] ports[k]) && signal_at(g, ports[k])
            == signals[k]
}

/// Ports that carry signals in a graph carry them in every graph that extends it.
proof fn lemma_carry_kept(g: GraphView, h: GraphView, ports: Seq<Port>, signals: Seq<Signal>)
    requires
        carry(g, ports, signals),
        g.is_prefix_of(h),
        signals_kept(g, h),
    ensures
        carry(h, ports, signals),
{
    assert forall|k: int| 0 <= k < ports.len() implies h.has_port(#[trigger] ports[k])
        && signal_at(h, ports[k]) == signals[k] by {
        let p = ports[k];
        assert(g.has_port(p));
        assert(h.nodes[p.node as int] == g.nodes[p.node as int]);
    }
}

/// The signals that `ports` carry in `g`.
pub open spec fn signals_at(g: GraphView, ports: Seq<Port>) -> Seq<Signal> {
    Seq::new(ports.len(), |k: int| signal_at(g, ports[k]))
}

/// Adds the sum of `ports`, or their product where `product` is set, taken
/// from left to right with two-input units, and returns the port that
/// carries it.  The sum of no port is a constant 0, the product a constant
/// 1; a single port is its own sum and product, and nothing is added.
pub fn add_fold(net: &mut Graph, product: bool, ports: &Vec<Port>) -> (result: Port)
    requires
        old(net)@.sound(),
        forall|k: int| 0 <= k < ports@.len() ==> old(net)@.has_port(#[trigger] ports@[k]),
    ensures
        final(net)@ == if product {
            with_product(old(net)@, ports@)
        } else {
            with_sum(old(net)@, ports@)
        },
        result == folded_out(final(net)@, ports@),
        final(net)@.has_port(result),
        final(net)@.sound(),
        old(net)@.is_prefix_of(final(net)@),
        final(net)@.outputs == old(net)@.outputs,
        final(net)@.inputs == old(net)@.inputs,
        signals_kept(old(net)@, final(net)@),
        signal_at(final(net)@, result) == if product {
            product_signal(signals_at(old(net)@, ports@))
        } else {
            sum_signal(signals_at(old(net)@, ports@))
        },
{
    let ghost start = net@;
    let kind = if product {
        UnitKind::Multiply
    } else {
        UnitKind::Add
    };
    proof {
        lemma_signals_kept(start, start);
    }
    if ports.len() == 0 {
        let neutral: i64 = if product {
            ONE
        } else {
            0
        };
        let id = net.leaf(UnitKind::Constant(neutral));
        return out(id);
    }
    let mut acc = ports[0];
    let mut i: usize = 1;
    proof {
        assert(signals_at(start, ports@.take(1)).len() == 1);
        assert(ports@.take(1)[0] == ports@[0]);
    }
    while i < ports.len()
        invariant
            1 <= i <= ports.len(),
            kind == if product {
                UnitKind::Multiply
            } else {
                UnitKind::Add
            },
            forall|k: int| 0 <= k < ports@.len() ==> start.has_port(#[trigger] ports@[k]),
            net@ == with_fold(start, kind, ports@.take(i as int)),
            acc == folded_out(net@, ports@.take(i as int)),
            net@.has_port(acc),
            net@.sound(),
            start.is_prefix_of(net@),
            net@.outputs == start.outputs,
            net@.inputs == start.inputs,
            signals_kept(start, net@),
            signal_at(net@, acc) == fold_signal(kind, signals_at(start, ports@.take(i as int))),
        decreases ports.len() - i,
    {
        let ghost before = net@;
        let next = ports[i];
        proof {
            assert(start.has_port(next));
            assert(before.nodes[next.node as int] == start.nodes[next.node as int]);
        }
        let id = net.binary(kind, acc, next);
        proof {
            let taken = ports@.take(i + 1);
            assert(taken.drop_last() =~= ports@.take(i as int));
            assert(taken.last() == next);
            assert(taken[0] == ports@[0]);
            assert(ports@.take(i as int)[0] == ports@[0]);
            let signals = signals_at(start, taken);
            assert(signals.drop_last() =~= signals_at(start, ports@.take(i as int)));
            assert(signals.last() == signal_at(start, next));
            assert(signal_at(before, next) == signal_at(start, next));
            lemma_signals_kept(start, net@);
        }
        acc = out(id);
        i += 1;
    }
    proof {
        assert(ports@.take(i as int) =~= ports@);
    }
    acc
}

/// Adds the oscillators and gains of a cluster, and returns the outputs of the gains.
fn add_partials(net: &mut Graph, partials: &Vec<Partial>) -> (outs: Vec<Port>)
    requires
        old(net)@.sound(),
    ensures
        final(net)@ == with_partials(old(net)@, partials@),
        outs@ == partial_outs(old(net)@.nodes.len(), partials@.len()),
        final(net)@.sound(),
        old(net)@.is_prefix_of(final(net)@),
        signals_kept(old(net)@, final(net)@),
        carry(final(net)@, outs@, Seq::new(partials@.len(), |k: int| partial_signal(partials@[k]))),
{
    let ghost start = net@;
    let mut outs: Vec<Port> = Vec::new();
    let mut i: usize = 0;
    proof {
        lemma_signals_kept(start, start);
    }
    while i < partials.len()
        invariant
            i <= partials.len(),
            net@ == with_partials(start, partials@.take(i as int)),
            net@.nodes.len() == start.nodes.len() + 2 * i,
            outs@ == partial_outs(start.nodes.len(), i as nat),
            net@.sound(),
            start.is_prefix_of(net@),
            signals_kept(start, net@),
            carry(net@, outs@, Seq::new(i as nat, |k: int| partial_signal(partials@[k]))),
        decreases partials.len() - i,
    {
        let ghost before = net@;
        let ghost carried = Seq::new(i as nat, |k: int| partial_signal(partials@[k]));
        let partial = partials[i];
        let tone = net.leaf(
            UnitKind::Oscillator { wave: OscillatorType::Sine, freq: Some(partial.freq) },
        );
        let gain_id = net.unary(UnitKind::Gain(partial.weight), out(tone));
        outs.push(out(gain_id));
        proof {
            let next = partials@.take(i + 1);
            assert(next.drop_last() =~= partials@.take(i as int));
            assert(next.last() == partial);
            assert(outs@ =~= partial_outs(start.nodes.len(), (i + 1) as nat));
            lemma_signals_kept(before, net@);
            lemma_carry_kept(before, net@, outs@.drop_last(), carried);
            assert(signal_at(net@, Port { node: gain_id, port: 0 }) == partial_signal(partial));
            assert forall|k: int| 0 <= k < outs@.len() implies net@.has_port(#[trigger] outs@[k])
                && signal_at(net@, outs@[k]) == Seq::new(
                (i + 1) as nat,
                |k: int| partial_signal(partials@[k]),
            )[k] by {
                if k < i {
                    assert(outs@[k] == outs@.drop_last()[k]);
                }
            }
        }
        i += 1;
    }
    proof {
        assert(partials@.take(i as int) =~= partials@);
    }
    outs
}

/// Adds the nodes of a source; its signal is output 0 of the node added last.
pub(crate) fn add_source(net: &mut Graph, source: &Source)
    requires
        old(net)@.sound(),
    ensures
        final(net)@ == with_source(old(net)@, source@),
        final(net)@.chainable(),
        old(net)@.is_prefix_of(final(net)@),
        final(net)@.outputs == old(net)@.outputs,
        final(net)@.inputs == old(net)@.inputs,
        signals_kept(old(net)@, final(net)@),
        signal_at(final(net)@, final(net)@.tail()) == source_signal(source@),
{
    let ghost start = net@;
    match source {
        Source::Noise => {
            net.leaf(UnitKind::Oscillator { wave: OscillatorType::Noise, freq: None });
        },
        Source::LowNoise { cutoff, steep } => {
            let noise_id = net.leaf(UnitKind::Oscillator { wave: OscillatorType::Noise, freq: None });
            let first = net.unary(UnitKind::LowPole(Some(*cutoff)), out(noise_id));
            if *steep {
                net.unary(UnitKind::LowPole(Some(*cutoff)), out(first));
            }
        },
        Source::BandNoise { shape } => {
            let noise_id = net.leaf(UnitKind::Oscillator { wave: OscillatorType::Noise, freq: None });
            net.unary(UnitKind::BandPass(Some(*shape)), out(noise_id));
        },
        Source::SweptNoise { sweep } => {
            let noise_id = net.leaf(UnitKind::Oscillator { wave: OscillatorType::Noise, freq: None });
            let cutoff_id = net.leaf(UnitKind::Control(*sweep));
            net.binary(UnitKind::LowPole(None), out(noise_id), out(cutoff_id));
        },
        Source::Fm { carrier, modulator, index } => {
            let carrier_id = net.leaf(UnitKind::Constant(*carrier));
            let mod_id = net.leaf(
                UnitKind::Oscillator { wave: OscillatorType::Sine, freq: Some(*modulator) },
            );
            let index_id = net.leaf(UnitKind::Control(*index));
            let depth_id = net.binary(UnitKind::Multiply, out(mod_id), out(index_id));
            let freq_id = net.binary(UnitKind::Add, out(carrier_id), out(depth_id));
            net.unary(UnitKind::Oscillator { wave: OscillatorType::Sine, freq: None }, out(freq_id));
        },
        Source::SweptSine { freq, vibrato_rate, vibrato_depth } => {
            let sweep_id = net.leaf(UnitKind::Control(*freq));
            let vibrato_id = net.leaf(
                UnitKind::Oscillator { wave: OscillatorType::Sine, freq: Some(*vibrato_rate) },
            );
            let depth_id = net.unary(UnitKind::Gain(*vibrato_depth), out(vibrato_id));
            let freq_id = net.binary(UnitKind::Add, out(sweep_id), out(depth_id));
            net.unary(UnitKind::Oscillator { wave: OscillatorType::Sine, freq: None }, out(freq_id));
        },
        Source::Sines { partials, gain } => {
            proof {
                lemma_with_partials_len(net@, partials@);
            }
            let outs = add_partials(net, partials);
            let ghost clustered = net@;
            let sum = add_fold(net, false, &outs);
            proof {
                assert(signals_at(clustered, outs@) =~= Seq::new(
                    partials@.len(),
                    |k: int| partial_signal(partials@[k]),
                ));
                if outs@.len() == 1 {
                    assert(outs@[0] == clustered.tail());
                }
                assert(sum == net@.tail());
            }
            net.unary(UnitKind::Gain(*gain), sum);
        },
    }
    proof {
        lemma_signals_kept(start, net@);
    }
}

/// Adds a unit of kind `kind`, which has no input, and the product of the
/// node added last and that unit.
pub(crate) fn add_factor(net: &mut Graph, kind: UnitKind)
    requires
        old(net)@.chainable(),
        kind.input_count() == 0,
    ensures
        final(net)@ == with_factor(old(net)@, kind),
        final(net)@.chainable(),
        old(net)@.is_prefix_of(final(net)@),
        final(net)@.outputs == old(net)@.outputs,
        final(net)@.inputs == old(net)@.inputs,
        signals_kept(old(net)@, final(net)@),
        signal_at(final(net)@, final(net)@.tail()) == apply(
            UnitKind::Multiply,
            seq![signal_at(old(net)@, old(net)@.tail()), apply(kind, seq![])],
        ),
{
    let ghost start = net@;
    let signal = out(net.size() - 1);
    let factor_id = net.leaf(kind);
    net.binary(UnitKind::Multiply, signal, out(factor_id));
    proof {
        lemma_signals_kept(start, net@);
    }
}

/// Adds a layer: its source, its envelope and their product, which is the node added last.
pub(crate) fn add_layer(net: &mut Graph, layer: &Layer)
    requires
        old(net)@.sound(),
    ensures
        final(net)@ == with_layer(old(net)@, layer@),
        final(net)@.chainable(),
        old(net)@.is_prefix_of(final(net)@),
        final(net)@.outputs == old(net)@.outputs,
        final(net)@.inputs == old(net)@.inputs,
        signals_kept(old(net)@, final(net)@),
        signal_at(final(net)@, final(net)@.tail()) == layer_signal(layer@),
{
    let ghost start = net@;
    add_source(net, &layer.source);
    add_factor(net, UnitKind::Control(Control::Envelope(layer.envelope)));
    proof {
        lemma_signals_kept(start, net@);
    }
}

/// Adds two cascaded low-pass poles where a cutoff is given.
pub(crate) fn add_lowpass(net: &mut Graph, lowpass: Option<i64>)
    requires
        old(net)@.chainable(),
    ensures
        final(net)@ == with_lowpass(old(net)@, lowpass),
        final(net)@.chainable(),
        final(net)@.outputs == old(net)@.outputs,
        final(net)@.inputs == old(net)@.inputs,
        signal_at(final(net)@, final(net)@.tail()) == lowpassed(
            signal_at(old(net)@, old(net)@.tail()),
            lowpass,
        ),
{
    if let Some(cutoff) = lowpass {
        let first = net.unary(UnitKind::LowPole(Some(cutoff)), out(net.size() - 1));
        net.unary(UnitKind::LowPole(Some(cutoff)), out(first));
    }
}

/// Adds the output stage.
pub(crate) fn add_output(net: &mut Graph, reverb: Option<ReverbSend>)
    requires
        old(net)@.chainable(),
        old(net)@.outputs.len() == 2,
    ensures
        final(net)@ == with_output(old(net)@, reverb),
        final(net)@.sound(),
        final(net)@.inputs == old(net)@.inputs,
        final(net)@.outputs.len() == 2,
        final(net)@.outputs[0] is Some,
        final(net)@.outputs[1] is Some,
        forall|channel: usize|
            channel < 2 ==> #[trigger] output_signal(final(net)@, channel as int) == staged_signal(
                signal_at(old(net)@, old(net)@.tail()),
                reverb,
                channel,
            ),
{
    let split_id = net.unary(UnitKind::Split, out(net.size() - 1));
    let left = Port { node: split_id, port: 0 };
    let right = Port { node: split_id, port: 1 };
    match reverb {
        Some(send) => {
            let wet_id = net.binary(UnitKind::Reverb(send.unit), left, right);
            let fade = UnitKind::Crossfade { dry: send.dry, wet: send.wet };
            let left_id = net.binary(fade, left, Port { node: wet_id, port: 0 });
            let right_id = net.binary(fade, right, Port { node: wet_id, port: 1 });
            let bound_left = net.connect_output(left_id, 0, 0);
            let bound_right = net.connect_output(right_id, 0, 1);
        },
        None => {
            let bound_left = net.connect_output(split_id, 0, 0);
            let bound_right = net.connect_output(split_id, 1, 1);
        },
    }
}

/// Builds the graph of a design: a stereo source that is validly wired and
/// can be run front to back, and whose channels carry the signal of the design.
pub fn assemble(design: &SoundDesign) -> (g: Graph)
    ensures
        g@ == assemble_spec(design@),
        g@.wf(),
        g@.feed_forward(),
        g@.stereo_source(),
        output_signal(g@, 0) == design_signal(design@, 0),
        output_signal(g@, 1) == design_signal(design@, 1),
{
    let mut net = Graph::new(0, 2);
    let ghost start = net@;
    let mut outs: Vec<Port> = Vec::new();
    let mut i: usize = 0;
    while i < design.layers.len()
        invariant
            i <= design.layers.len(),
            start == GraphView::empty(0, 2),
            net@ == with_layers(start, design@.layers.take(i as int)),
            outs@ == layer_outs(start, design@.layers.take(i as int)),
            outs@.len() == i,
            i > 0 ==> outs@[i - 1] == net@.tail(),
            net@.sound(),
            net@.outputs == start.outputs,
            net@.inputs == 0,
            carry(net@, outs@, Seq::new(i as nat, |k: int| layer_signal(design@.layers[k]))),
        decreases design.layers.len() - i,
    {
        let ghost before = net@;
        let ghost carried = Seq::new(i as nat, |k: int| layer_signal(design@.layers[k]));
        add_layer(&mut net, &design.layers[i]);
        outs.push(out(net.size() - 1));
        proof {
            let next = design@.layers.take(i + 1);
            assert(next.drop_last() =~= design@.layers.take(i as int));
            assert(next.last() == design.layers@[i as int]@);
            lemma_carry_kept(before, net@, outs@.drop_last(), carried);
            assert forall|k: int| 0 <= k < outs@.len() implies net@.has_port(#[trigger] outs@[k])
                && signal_at(net@, outs@[k]) == Seq::new(
                (i + 1) as nat,
                |k: int| layer_signal(design@.layers[k]),
            )[k] by {
                if k < i {
                    assert(outs@[k] == outs@.drop_last()[k]);
                }
            }
        }
        i += 1;
    }
    let ghost layered = net@;
    proof {
        assert(design@.layers.take(i as int) =~= design@.layers);
    }
    let mix = add_fold(&mut net, false, &outs);
    proof {
        assert(signals_at(layered, outs@) =~= Seq::new(
            i as nat,
            |k: int| layer_signal(design@.layers[k]),
        ));
        assert(mix == net@.tail());
    }
    add_lowpass(&mut net, design.lowpass);
    add_output(&mut net, design.reverb);
    net
}

} // verus!
