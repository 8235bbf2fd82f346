//! Heartbeat: two damped bursts per beat under a low-pass, steered live by
//! rate, intensity and arrhythmia.
//!
//! A beat lasts `60 / heart_rate` seconds.  The first burst starts with the
//! beat, the second a third of a beat later.  Arrhythmia shifts the phase of
//! the beat by up to four tenths of a beat either way.

use vstd::prelude::*;
use vstd::arithmetic::div_mod::{lemma_fundamental_div_mod_converse, lemma_hoist_over_denominator};
use crate::dsp::design::{add_factor, add_output, split_signal, with_factor, with_output};
use crate::dsp::graph::{out, Graph, GraphView, Port};
use crate::dsp::signal::{apply, output_signal, Signal};
use crate::dsp::graph_builder::{cell, AMP_MAX, AMP_MIN};
use crate::dsp::param::{ParamHandle, ParamView};
use crate::dsp::unit::{Burst, HeartPulse, ParamSlot, UnitKind};
use crate::fixed::{
    in_range, ratio, ratio_spec, scale, scale_spec, wrap, wrap_spec, LIMIT, ONE,
};

verus! {

/// The settings of a heartbeat.
#[derive(Clone, Copy, Debug, PartialEq, Eq)]
pub struct Heartbeat {
    /// Beats per minute, between 30 and 220.
    pub heart_rate: i64,
    /// How irregular the beat is: 0 is perfectly regular, 1 erratic.
    pub arrhythmic_strength: i64,
    /// Overall loudness, between 0 and 1.
    pub intensity: i64,
}

impl Default for Heartbeat {
    fn default() -> (r: Self)
        ensures
            r == (Heartbeat { heart_rate: 72_000_000, arrhythmic_strength: 0, intensity: 500_000 }),
    {
        Heartbeat { heart_rate: 72_000_000, arrhythmic_strength: 0, intensity: 500_000 }
    }
}

/// The live parameters of a heartbeat.
pub struct HeartbeatParams {
    pub rate: ParamHandle,
    pub intensity: ParamHandle,
    pub arrhythmia: ParamHandle,
}

/// The live parameters of a heartbeat as the contracts see them.
pub struct HeartbeatParamsView {
    pub rate: ParamView,
    pub intensity: ParamView,
    pub arrhythmia: ParamView,
}

impl View for HeartbeatParams {
    type V = HeartbeatParamsView;

    open spec fn view(&self) -> HeartbeatParamsView {
        HeartbeatParamsView {
            rate: self.rate@,
            intensity: self.intensity@,
            arrhythmia: self.arrhythmia@,
        }
    }
}

/// Slowest and fastest heart rate, in beats per minute.
pub const RATE_MIN: i64 = 30_000_000;

pub const RATE_MAX: i64 = 220_000_000;

/// Seconds in a minute.
pub const MINUTE: i64 = 60_000_000;

/// Cutoff in hertz of the low-pass on the bursts.
pub const MUFFLE_HZ: i64 = 150_000_000;

/// How far, in beats, full arrhythmia can shift the phase.
pub const JITTER_DEPTH: i64 = 400_000;

/// The wander signal is the sum of three sines whose rates, in hertz, have
/// no common period, weighted so that it stays between -1 and 1.
pub const WANDER_SLOW_HZ: i64 = 370_000;

pub const WANDER_SLOW_WEIGHT: i64 = 500_000;

pub const WANDER_MID_HZ: i64 = 830_000;

pub const WANDER_MID_WEIGHT: i64 = 300_000;

pub const WANDER_FAST_HZ: i64 = 1_710_000;

pub const WANDER_FAST_WEIGHT: i64 = 200_000;

/// Rate, per second, of the rise of a burst: it is at full level after 2 ms.
pub const BURST_ATTACK: i64 = 500_000_000;

/// Weight of the higher harmonic of a burst.
pub const OVERTONE_WEIGHT: i64 = 400_000;

/// The two heart sounds: the first deep and slow to fade, the second
/// higher, quicker, a third of a beat later and seven tenths as loud.
pub open spec fn pulse_spec() -> HeartPulse {
    HeartPulse {
        s1: Burst { freq_lo: 45_000_000, freq_hi: 90_000_000, decay: 25_000_000 },
        s2: Burst { freq_lo: 65_000_000, freq_hi: 130_000_000, decay: 35_000_000 },
        s2_phase: 330_000,
        s2_gain: 700_000,
    }
}

/// The two heart sounds.
pub fn pulse() -> (p: HeartPulse)
    ensures
        p == pulse_spec(),
{
    HeartPulse {
        s1: Burst { freq_lo: 45_000_000, freq_hi: 90_000_000, decay: 25_000_000 },
        s2: Burst { freq_lo: 65_000_000, freq_hi: 130_000_000, decay: 35_000_000 },
        s2_phase: 330_000,
        s2_gain: 700_000,
    }
}

/// The graph of a heartbeat: the pulse, which reads the live rate and the
/// live arrhythmia, times the live intensity, through a low-pass, split to stereo.
pub open spec fn heartbeat_graph() -> GraphView {
    with_output(
        with_factor(
            GraphView::empty(0, 2).with_node(UnitKind::Param(ParamSlot::HeartRate), seq![]).with_node(
                UnitKind::Param(ParamSlot::Arrhythmia),
                seq![],
            ).with_node(
                UnitKind::HeartPulse(pulse_spec()),
                seq![Some(Port { node: 0, port: 0 }), Some(Port { node: 1, port: 0 })],
            ),
            UnitKind::Param(ParamSlot::Intensity),
        ).chain(UnitKind::LowPole(Some(MUFFLE_HZ))),
        None,
    )
}

/// The signal of the pulse: the two bursts, timed by the live rate and the
/// live arrhythmia.
pub open spec fn pulse_signal() -> Signal {
    apply(
        UnitKind::HeartPulse(pulse_spec()),
        seq![
            apply(UnitKind::Param(ParamSlot::HeartRate), seq![]),
            apply(UnitKind::Param(ParamSlot::Arrhythmia), seq![]),
        ],
    )
}

/// What channel `channel` of a heartbeat sounds like: the pulse times the
/// live intensity, through a low-pass, split to stereo.
pub open spec fn heartbeat_signal(channel: usize) -> Signal {
    split_signal(
        apply(
            UnitKind::LowPole(Some(MUFFLE_HZ)),
            seq![
                apply(
                    UnitKind::Multiply,
                    seq![pulse_signal(), apply(UnitKind::Param(ParamSlot::Intensity), seq![])],
                ),
            ],
        ),
        channel,
    )
}

/// The live parameters of a heartbeat with the given settings.
pub open spec fn heartbeat_params(hb: Heartbeat) -> HeartbeatParamsView {
    HeartbeatParamsView {
        rate: cell("heart_rate"@, hb.heart_rate, RATE_MIN, RATE_MAX),
        intensity: cell("intensity"@, hb.intensity, AMP_MIN, AMP_MAX),
        arrhythmia: cell("arrhythmia"@, hb.arrhythmic_strength, AMP_MIN, AMP_MAX),
    }
}

/// Builds the graph of a heartbeat and the handles of its live parameters.
pub fn build_heartbeat_graph(hb: &Heartbeat) -> (r: (Graph, HeartbeatParams))
    ensures
        r.0@ == heartbeat_graph(),
        r.0@.wf(),
        r.0@.feed_forward(),
        r.0@.stereo_source(),
        output_signal(r.0@, 0) == heartbeat_signal(0),
        output_signal(r.0@, 1) == heartbeat_signal(1),
        r.1@ == heartbeat_params(*hb),
{
    let rate_param = ParamHandle::new("heart_rate", hb.heart_rate, RATE_MIN, RATE_MAX);
    let intensity_param = ParamHandle::new("intensity", hb.intensity, AMP_MIN, AMP_MAX);
    let arrhythmia_param = ParamHandle::new("arrhythmia", hb.arrhythmic_strength, AMP_MIN, AMP_MAX);

    let mut net = Graph::new(0, 2);
    let rate_id = net.leaf(UnitKind::Param(ParamSlot::HeartRate));
    let arrhythmia_id = net.leaf(UnitKind::Param(ParamSlot::Arrhythmia));
    net.binary(UnitKind::HeartPulse(pulse()), out(rate_id), out(arrhythmia_id));
    add_factor(&mut net, UnitKind::Param(ParamSlot::Intensity));
    net.unary(UnitKind::LowPole(Some(MUFFLE_HZ)), out(net.size() - 1));
    add_output(&mut net, None);

    let params = HeartbeatParams {
        rate: rate_param,
        intensity: intensity_param,
        arrhythmia: arrhythmia_param,
    };
    (net, params)
}

/// The length of a beat in seconds at `rate` beats per minute; a rate below
/// the slowest counts as the slowest.
pub open spec fn beat_period_spec(rate: i64) -> i64 {
    ratio_spec(
        MINUTE,
        if rate < RATE_MIN {
            RATE_MIN
        } else {
            rate
        },
    )
}

/// The length of a beat in seconds at `rate` beats per minute.
pub fn beat_period(rate: i64) -> (period: i64)
    ensures
        period == beat_period_spec(rate),
        0 <= period <= 2 * ONE,
        rate <= RATE_MAX ==> period > 0,
{
    let bpm: i64 = if rate < RATE_MIN {
        RATE_MIN
    } else {
        rate
    };
    proof {
        assert((MINUTE * ONE) / (bpm as int) <= (MINUTE * ONE) / (RATE_MIN as int)) by (nonlinear_arith)
            requires
                bpm >= RATE_MIN,
        ;
        if rate <= RATE_MAX {
            assert((MINUTE * ONE) / (bpm as int) >= (MINUTE * ONE) / (RATE_MAX as int)) by (nonlinear_arith)
                requires
                    0 < bpm <= RATE_MAX,
            ;
        }
    }
    ratio(MINUTE, bpm)
}

/// The shift of the beat's phase, in beats, where the arrhythmia is
/// `arrhythmia` and the wander signal stands at `wave`.
pub open spec fn phase_jitter_spec(arrhythmia: i64, wave: i64) -> i64 {
    scale_spec(scale_spec(arrhythmia, JITTER_DEPTH), wave)
}

/// The shift of the beat's phase, in beats.  `arrhythmia` lies between 0
/// and 1 and `wave`, the wander signal, between -1 and 1; the shift is then
/// at most four tenths of a beat either way.
pub fn phase_jitter(arrhythmia: i64, wave: i64) -> (jitter: i64)
    requires
        0 <= arrhythmia <= ONE,
        -ONE <= wave <= ONE,
    ensures
        jitter == phase_jitter_spec(arrhythmia, wave),
        -JITTER_DEPTH <= jitter <= JITTER_DEPTH,
        arrhythmia == 0 ==> jitter == 0,
{
    let depth: i64 = scale(arrhythmia, JITTER_DEPTH);
    assert(0 <= depth <= JITTER_DEPTH);
    assert(arrhythmia == 0 ==> depth == 0);
    let jitter: i64 = scale(depth, wave);
    assert(depth == 0 ==> jitter == 0) by (nonlinear_arith)
        requires
            jitter == (depth * wave) / (ONE as int),
    ;
    assert(-JITTER_DEPTH <= jitter <= JITTER_DEPTH) by (nonlinear_arith)
        requires
            0 <= depth <= JITTER_DEPTH,
            -ONE <= wave <= ONE,
            jitter == (depth * wave) / (ONE as int),
    ;
    jitter
}

/// The phase of the beat at time `t`: the beats that have passed plus the
/// jitter, wrapped into `[0, 1)`.
pub open spec fn beat_phase_spec(t: i64, period: i64, jitter: i64) -> i64 {
    wrap_spec((ratio_spec(t, period) + jitter) as i64)
}

/// The phase of the beat at time `t`, in beats: at least 0 and below 1.
pub fn beat_phase(t: i64, period: i64, jitter: i64) -> (phase: i64)
    requires
        0 <= t <= LIMIT,
        0 < period,
        in_range(jitter),
    ensures
        phase == beat_phase_spec(t, period, jitter),
        0 <= phase < ONE,
{
    wrap(ratio(t, period) + jitter)
}

/// The time since a burst began that begins `offset` beats into the beat,
/// where the beat is at `phase`; negative while the burst has yet to begin.
pub open spec fn burst_time_spec(phase: i64, offset: i64, period: i64) -> i64 {
    scale_spec((phase - offset) as i64, period)
}

/// The time since a burst began, in seconds.
pub fn burst_time(phase: i64, offset: i64, period: i64) -> (t: i64)
    requires
        -ONE < phase < ONE,
        0 <= offset <= ONE,
        0 <= period <= 2 * ONE,
    ensures
        t == burst_time_spec(phase, offset, period),
{
    scale(phase - offset, period)
}

/// Without arrhythmia the beat is periodic: `d` seconds into beat number
/// `k` the phase is `d / period`, whatever `k` is.  So the first burst
/// begins exactly when a beat does, and successive beginnings lie one
/// period, `60 / rate` seconds, apart.
pub proof fn lemma_regular_beat(rate: i64, k: int, d: int)
    requires
        RATE_MIN <= rate <= RATE_MAX,
        0 <= k,
        0 <= d < beat_period_spec(rate),
        k * beat_period_spec(rate) + d <= LIMIT,
    ensures
        beat_period_spec(rate) == (MINUTE * ONE) / (rate as int),
        beat_phase_spec((k * beat_period_spec(rate) + d) as i64, beat_period_spec(rate), 0)
            == ratio_spec(d as i64, beat_period_spec(rate)),
        d == 0 ==> beat_phase_spec(
            (k * beat_period_spec(rate)) as i64,
            beat_period_spec(rate),
            0,
        ) == 0,
{
    let p = beat_period_spec(rate) as int;
    let m = ONE as int;
    assert(p == (MINUTE * ONE) / (rate as int));
    assert(0 < p <= 2 * ONE) by (nonlinear_arith)
        requires
            p == (MINUTE * ONE) / (rate as int),
            RATE_MIN <= rate <= RATE_MAX,
    ;
    assert(0 <= k * p) by (nonlinear_arith)
        requires
            0 <= k,
            0 < p,
    ;
    let t = k * p + d;
    let q = (d * m) / p;
    // The beats that have passed: k whole ones and the fraction q.
    assert((t * m) / p == k * m + q) by {
        lemma_hoist_over_denominator(d * m, k * m, p as nat);
        assert(t * m == d * m + (k * m) * p) by (nonlinear_arith)
            requires
                t == k * p + d,
        ;
    }
    let x = d * m;
    assert(0 <= x < m * p) by (nonlinear_arith)
        requires
            x == d * m,
            0 <= d < p,
            m > 0,
    ;
    assert(0 <= x / p < m) by (nonlinear_arith)
        requires
            0 <= x < m * p,
            0 < p,
    ;
    assert(0 <= k * m) by (nonlinear_arith)
        requires
            0 <= k,
            m > 0,
    ;
    lemma_fundamental_div_mod_converse(k * m + q, m, k, q);
    if d == 0 {
        assert(q == 0);
    }
}

} // verus!
