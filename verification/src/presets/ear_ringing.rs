//! Ear ringing: six high sines in three close pairs that beat against each
//! other, throbbing and fluttering, and circling the listener once in
//! about eight seconds.

use vstd::prelude::*;
use crate::dsp::design::{
    add_factor, add_source, port0, source_signal, split_signal, with_factor, with_source, Partial,
    Source, SourceView,
};
use crate::dsp::graph::{out, Graph, GraphView, Port};
use crate::dsp::signal::{apply, output_signal, Signal};
use crate::dsp::graph_builder::{cell, AMP_MAX, AMP_MIN};
use crate::dsp::param::{ParamHandle, ParamView};
use crate::dsp::unit::{Control, Pan, ParamSlot, UnitKind, Wobble};
use crate::fixed::{cycle_spec, ONE};

verus! {

/// The settings of an ear ringing.
#[derive(Clone, Copy, Debug, PartialEq, Eq)]
pub struct EarRinging {
    /// Overall loudness, between 0 and 1.
    pub intensity: i64,
}

impl Default for EarRinging {
    fn default() -> (r: Self)
        ensures
            r == (EarRinging { intensity: 300_000 }),
    {
        EarRinging { intensity: 300_000 }
    }
}

/// The live parameters of an ear ringing.
pub struct EarRingingParams {
    pub intensity: ParamHandle,
}

/// The live parameters of an ear ringing as the contracts see them.
pub struct EarRingingParamsView {
    pub intensity: ParamView,
}

impl View for EarRingingParams {
    type V = EarRingingParamsView;

    open spec fn view(&self) -> EarRingingParamsView {
        EarRingingParamsView { intensity: self.intensity@ }
    }
}

/// Lowest gain of a channel, and how far above it the gain can rise.
pub const PAN_BASE: i64 = 300_000;

pub const PAN_DEPTH: i64 = 700_000;

/// Turns per second of the pan.
pub const PAN_RATE: i64 = 120_000;

/// The time of one turn of the pan, in seconds, rounded down.
pub const PAN_PERIOD: i64 = 8_333_333;

/// The six tones, in hertz.
pub open spec fn tones_spec() -> Seq<Partial> {
    seq![
        Partial { freq: 4_000_000_000, weight: ONE },
        Partial { freq: 4_015_000_000, weight: ONE },
        Partial { freq: 5_200_000_000, weight: ONE },
        Partial { freq: 5_230_000_000, weight: ONE },
        Partial { freq: 6_800_000_000, weight: ONE },
        Partial { freq: 6_790_000_000, weight: ONE },
    ]
}

/// The slow throb times the quicker flutter.
pub open spec fn tremolo_spec() -> Control {
    Control::Tremolo {
        throb: Wobble { offset: 550_000, depth: 450_000, rate: 140_000 },
        flutter: Wobble { offset: 800_000, depth: 200_000, rate: 700_000 },
    }
}

/// The gain of the left channel, or of the right where `right` is set.
pub open spec fn pan_spec(right: bool) -> Pan {
    Pan { base: PAN_BASE, depth: PAN_DEPTH, rate: PAN_RATE, quadrature: right }
}

/// The graph of an ear ringing: the mean of the tones times the live
/// intensity times the tremolo, split to stereo, each channel times its pan gain.
pub open spec fn ear_ringing_graph() -> GraphView {
    let mono = with_factor(
        with_factor(
            with_source(
                GraphView::empty(0, 2),
                SourceView::Sines { partials: tones_spec(), gain: 166_666 },
            ),
            UnitKind::Param(ParamSlot::Intensity),
        ),
        UnitKind::Control(tremolo_spec()),
    );
    let n = mono.nodes.len();
    mono.chain(UnitKind::Split).with_node(
        UnitKind::Control(Control::Pan(pan_spec(false))),
        seq![],
    ).with_node(UnitKind::Control(Control::Pan(pan_spec(true))), seq![]).with_node(
        UnitKind::Multiply,
        seq![Some(Port { node: n as usize, port: 0 }), Some(port0(n + 1))],
    ).with_node(
        UnitKind::Multiply,
        seq![Some(Port { node: n as usize, port: 1 }), Some(port0(n + 2))],
    ).bind_output(port0(n + 3), 0).bind_output(port0(n + 4), 1)
}

/// The mono signal of an ear ringing: the mean of the six tones times the
/// live intensity times the tremolo.
pub open spec fn ringing_signal() -> Signal {
    apply(
        UnitKind::Multiply,
        seq![
            apply(
                UnitKind::Multiply,
                seq![
                    source_signal(SourceView::Sines { partials: tones_spec(), gain: 166_666 }),
                    apply(UnitKind::Param(ParamSlot::Intensity), seq![]),
                ],
            ),
            apply(UnitKind::Control(tremolo_spec()), seq![]),
        ],
    )
}

/// What channel `channel` of an ear ringing sounds like: the mono signal
/// times the pan gain of the channel.
pub open spec fn ear_ringing_signal(channel: usize) -> Signal {
    apply(
        UnitKind::Multiply,
        seq![
            split_signal(ringing_signal(), channel),
            apply(UnitKind::Control(Control::Pan(pan_spec(channel == 1))), seq![]),
        ],
    )
}

/// The live parameters of an ear ringing with the given settings.
pub open spec fn ear_ringing_params(er: EarRinging) -> EarRingingParamsView {
    EarRingingParamsView { intensity: cell("intensity"@, er.intensity, AMP_MIN, AMP_MAX) }
}

/// The six tones.
fn tones() -> (v: Vec<Partial>)
    ensures
        v@ == tones_spec(),
{
    let mut v: Vec<Partial> = Vec::new();
    v.push(Partial { freq: 4_000_000_000, weight: ONE });
    v.push(Partial { freq: 4_015_000_000, weight: ONE });
    v.push(Partial { freq: 5_200_000_000, weight: ONE });
    v.push(Partial { freq: 5_230_000_000, weight: ONE });
    v.push(Partial { freq: 6_800_000_000, weight: ONE });
    v.push(Partial { freq: 6_790_000_000, weight: ONE });
    assert(v@ =~= tones_spec());
    v
}

/// Builds the graph of an ear ringing and the handle of its live parameter.
pub fn build_ear_ringing_graph(er: &EarRinging) -> (r: (Graph, EarRingingParams))
    ensures
        r.0@ == ear_ringing_graph(),
        r.0@.wf(),
        r.0@.feed_forward(),
        r.0@.stereo_source(),
        output_signal(r.0@, 0) == ear_ringing_signal(0),
        output_signal(r.0@, 1) == ear_ringing_signal(1),
        r.1@ == ear_ringing_params(*er),
{
    let intensity_param = ParamHandle::new("intensity", er.intensity, AMP_MIN, AMP_MAX);

    let mut net = Graph::new(0, 2);
    // Three detuned pairs, which beat against each other.
    let source = Source::Sines { partials: tones(), gain: 166_666 };
    add_source(&mut net, &source);
    add_factor(&mut net, UnitKind::Param(ParamSlot::Intensity));
    // Slow throb and quicker flutter.
    add_factor(
        &mut net,
        UnitKind::Control(
            Control::Tremolo {
                throb: Wobble { offset: 550_000, depth: 450_000, rate: 140_000 },
                flutter: Wobble { offset: 800_000, depth: 200_000, rate: 700_000 },
            },
        ),
    );
    let split_id = net.unary(UnitKind::Split, out(net.size() - 1));
    // The two gains are a quarter turn apart, so the sound circles the head.
    let left_gain = net.leaf(
        UnitKind::Control(
            Control::Pan(
                Pan { base: PAN_BASE, depth: PAN_DEPTH, rate: PAN_RATE, quadrature: false },
            ),
        ),
    );
    let right_gain = net.leaf(
        UnitKind::Control(
            Control::Pan(Pan { base: PAN_BASE, depth: PAN_DEPTH, rate: PAN_RATE, quadrature: true }),
        ),
    );
    let left = net.binary(UnitKind::Multiply, Port { node: split_id, port: 0 }, out(left_gain));
    let right = net.binary(
        UnitKind::Multiply,
        Port { node: split_id, port: 1 },
        out(right_gain),
    );
    let bound_left = net.connect_output(left, 0, 0);
    let bound_right = net.connect_output(right, 0, 1);

    (net, EarRingingParams { intensity: intensity_param })
}

/// Whatever the time, the gain of either channel lies between 0.3 and 1:
/// the squared sine or cosine that drives it lies between 0 and 1.
pub proof fn lemma_pan_gain_bounds(right: bool, square: i64)
    requires
        0 <= square <= ONE,
    ensures
        300_000 <= pan_spec(right).gain_spec(square) <= 1_000_000,
{
    crate::dsp::unit::lemma_share_bounds(PAN_DEPTH as int, square as int);
}

/// Where one channel is driven by the squared cosine and the other by the
/// squared sine of the same angle, which add up to 1, the two gains add up
/// to 1.3, short of at most one millionth lost to rounding.
pub proof fn lemma_pan_gains_complement(square: i64)
    requires
        0 <= square <= ONE,
    ensures
        1_300_000 - 1 <= pan_spec(false).gain_spec(square) + pan_spec(true).gain_spec(
            (ONE - square) as i64,
        ) <= 1_300_000,
{
}

/// The pan repeats after `PAN_PERIOD`, about 8.33 seconds: its place in the
/// cycle is then what it was, short of at most one millionth of a turn.
pub proof fn lemma_pan_period(t: i64)
    requires
        0 <= t <= i64::MAX - PAN_PERIOD,
    ensures
        PAN_PERIOD == (ONE * ONE) / (PAN_RATE as int),
        cycle_spec(PAN_RATE, (t + PAN_PERIOD) as i64) == cycle_spec(PAN_RATE, t) || (cycle_spec(
            PAN_RATE,
            (t + PAN_PERIOD) as i64,
        ) + 1) % (ONE as int) == cycle_spec(PAN_RATE, t),
{
}

} // verus!
