//! What a graph computes, as an expression.
//!
//! The signal at an output port of a node is the node's unit applied to the
//! signals at its inputs.  In a feed-forward graph this reads the whole
//! computation of a port off the wiring, whatever the order and the number
//! of the nodes: two graphs whose outputs carry the same signals compute
//! the same thing.

use vstd::prelude::*;
use crate::dsp::graph::{GraphView, Port};
use crate::dsp::unit::UnitKind;

verus! {

/// A signal, as an expression over units.
pub enum Signal {
    /// What an input without a source reads, and an output without one carries.
    Silence,
    /// Output `port` of a unit of kind `kind` whose inputs carry `inputs`.
    Unit { kind: UnitKind, port: usize, inputs: Seq<Signal> },
}

/// Output 0 of a unit of kind `kind` whose inputs carry `inputs`.
pub open spec fn apply(kind: UnitKind, inputs: Seq<Signal>) -> Signal {
    Signal::Unit { kind, port: 0, inputs }
}

/// Whether the signal is exactly 0 at local time `t` for what its
/// expression shows alone.  A control past its cutoff is 0; a product is 0
/// where a factor is; a sum, a gain, a split, a cross-fade and a waveshaper
/// are 0 where all they read is.  Units that remember what they have read,
/// such as filters and reverbs, and units that make sound of their own are
/// never taken to be 0.
pub open spec fn mute_at(signal: Signal, t: int) -> bool
    decreases signal,
{
    match signal {
        Signal::Silence => true,
        Signal::Unit { kind, port, inputs } => match kind {
            UnitKind::Control(control) => control.cutoff_spec() matches Some(cutoff) && t
                > cutoff,
            UnitKind::Constant(value) => value == 0,
            UnitKind::Multiply => exists|j: int|
                0 <= j < inputs.len() && mute_at(#[trigger] inputs[j], t),
            UnitKind::Add | UnitKind::Gain(_) | UnitKind::Split | UnitKind::Crossfade { .. }
            | UnitKind::Distortion { .. } => forall|j: int|
                0 <= j < inputs.len() ==> mute_at(#[trigger] inputs[j], t),
            _ => false,
        },
    }
}

/// The signal that a source slot of node `reader` carries.  A slot that
/// names a node that does not come before the reader carries silence here:
/// feed-forward graphs have no such slot.
pub open spec fn signal_of_slot(g: GraphView, reader: nat, slot: Option<Port>) -> Signal
    decreases reader, 0nat,
{
    match slot {
        Some(p) => if p.node < reader {
            signal_at(g, p)
        } else {
            Signal::Silence
        },
        None => Signal::Silence,
    }
}

/// The signals that the source slots of node `reader` carry.
pub open spec fn signals_of_slots(g: GraphView, reader: nat, slots: Seq<Option<Port>>) -> Seq<
    Signal,
>
    decreases reader, 1nat,
{
    Seq::new(slots.len(), |j: int| signal_of_slot(g, reader, slots[j]))
}

/// The signal at output port `p`.
pub open spec fn signal_at(g: GraphView, p: Port) -> Signal
    decreases p.node, 2nat,
{
    if p.node < g.nodes.len() {
        Signal::Unit {
            kind: g.nodes[p.node as int].kind,
            port: p.port,
            inputs: signals_of_slots(g, p.node as nat, g.nodes[p.node as int].sources),
        }
    } else {
        Signal::Silence
    }
}

/// The signal at output channel `channel` of the graph.
pub open spec fn output_signal(g: GraphView, channel: int) -> Signal {
    match g.outputs[channel] {
        Some(p) => signal_at(g, p),
        None => Signal::Silence,
    }
}

/// Whether every port of `g` carries in `h` the signal that it carries in `g`.
pub open spec fn signals_kept(g: GraphView, h: GraphView) -> bool {
    forall|p: Port| p.node < g.nodes.len() ==> #[trigger] signal_at(h, p) == signal_at(g, p)
}

/// Adding nodes to a graph leaves the signal at a port it had as it was.
pub proof fn lemma_signal_kept(g: GraphView, h: GraphView, p: Port)
    requires
        g.is_prefix_of(h),
        p.node < g.nodes.len(),
    ensures
        signal_at(h, p) == signal_at(g, p),
    decreases p.node,
{
    let node = g.nodes[p.node as int];
    assert(h.nodes[p.node as int] == node);
    let a = signals_of_slots(g, p.node as nat, node.sources);
    let b = signals_of_slots(h, p.node as nat, node.sources);
    assert forall|j: int| 0 <= j < node.sources.len() implies a[j] == b[j] by {
        if let Some(q) = node.sources[j] {
            if q.node < p.node {
                lemma_signal_kept(g, h, q);
            }
        }
    }
    assert(a =~= b);
}

/// Adding nodes to a graph leaves the signals at all ports it had as they were.
pub proof fn lemma_signals_kept(g: GraphView, h: GraphView)
    requires
        g.is_prefix_of(h),
    ensures
        signals_kept(g, h),
{
    assert forall|p: Port| p.node < g.nodes.len() implies #[trigger] signal_at(h, p) == signal_at(
        g,
        p,
    ) by {
        lemma_signal_kept(g, h, p);
    }
}

/// The signals of a node that has just been added: its unit applied to the
/// signals that its sources carried before.
pub proof fn lemma_signal_added(g: GraphView, kind: UnitKind, sources: Seq<Option<Port>>, port: usize)
    requires
        g.nodes.len() <= usize::MAX,
    ensures
        signal_at(
            g.with_node(kind, sources),
            Port { node: g.nodes.len() as usize, port },
        ) == (Signal::Unit {
            kind,
            port,
            inputs: signals_of_slots(g, g.nodes.len(), sources),
        }),
{
    let h = g.with_node(kind, sources);
    let n = g.nodes.len();
    assert(h.nodes[n as int].sources == sources);
    let a = signals_of_slots(h, n, sources);
    let b = signals_of_slots(g, n, sources);
    assert forall|j: int| 0 <= j < sources.len() implies a[j] == b[j] by {
        if let Some(q) = sources[j] {
            if q.node < n {
                lemma_signal_kept(g, h, q);
            }
        }
    }
    assert(a =~= b);
}

/// A node without sources reads nothing.
pub proof fn lemma_slots0(g: GraphView, reader: nat)
    ensures
        signals_of_slots(g, reader, Seq::empty()) == Seq::<Signal>::empty(),
{
    assert(signals_of_slots(g, reader, Seq::empty()) =~= Seq::<Signal>::empty());
}

/// A node with one source reads the signal at that port.
pub proof fn lemma_slots1(g: GraphView, reader: nat, a: Port)
    requires
        a.node < reader,
    ensures
        signals_of_slots(g, reader, seq![Some(a)]) == seq![signal_at(g, a)],
{
    assert(signals_of_slots(g, reader, seq![Some(a)]) =~= seq![signal_at(g, a)]);
}

/// A node with two sources reads the signals at those ports.
pub proof fn lemma_slots2(g: GraphView, reader: nat, a: Port, b: Port)
    requires
        a.node < reader,
        b.node < reader,
    ensures
        signals_of_slots(g, reader, seq![Some(a), Some(b)]) == seq![
            signal_at(g, a),
            signal_at(g, b),
        ],
{
    assert(signals_of_slots(g, reader, seq![Some(a), Some(b)]) =~= seq![
        signal_at(g, a),
        signal_at(g, b),
    ]);
}

/// A node with three sources reads the signals at those ports.
pub proof fn lemma_slots3(g: GraphView, reader: nat, a: Port, b: Port, c: Port)
    requires
        a.node < reader,
        b.node < reader,
        c.node < reader,
    ensures
        signals_of_slots(g, reader, seq![Some(a), Some(b), Some(c)]) == seq![
            signal_at(g, a),
            signal_at(g, b),
            signal_at(g, c),
        ],
{
    assert(signals_of_slots(g, reader, seq![Some(a), Some(b), Some(c)]) =~= seq![
        signal_at(g, a),
        signal_at(g, b),
        signal_at(g, c),
    ]);
}

/// Binding an output channel leaves the signals at all ports as they were.
pub proof fn lemma_bind_keeps_signals(g: GraphView, src: Port, channel: int)
    ensures
        signals_kept(g, g.bind_output(src, channel)),
{
    lemma_signals_kept(g, g.bind_output(src, channel));
}

} // verus!
