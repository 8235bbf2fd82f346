//! Signal graphs: units, the connections between their ports, and the outputs.
//!
//! A graph is built once.  Each input port of a node has at most one source,
//! an output port of some node; an input without a source reads silence.
//! Each output channel of the graph likewise has at most one source.

use vstd::prelude::*;
use crate::dsp::signal::{
    lemma_bind_keeps_signals, lemma_signal_added, lemma_signals_kept, lemma_slots0, lemma_slots1,
    lemma_slots2, lemma_slots3, signal_at, signals_kept, signals_of_slots, Signal,
};
use crate::dsp::unit::UnitKind;

verus! {

/// An output port of a node.
#[derive(Clone, Copy, Debug, PartialEq, Eq)]
pub struct Port {
    pub node: usize,
    pub port: usize,
}

/// Why a connection was refused.
#[derive(Clone, Copy, Debug, PartialEq, Eq)]
pub enum InvalidWiring {
    /// A node id names no node of the graph.
    UnknownNode,
    /// A port index is not below the unit's number of such ports, or a
    /// channel index not below the graph's number of outputs.
    PortOutOfRange,
    /// The units that were handed in for a graph are not as many as its
    /// nodes, or one has other numbers of inputs and outputs than its node.
    ArityMismatch,
    /// Some node of the graph reads from itself.
    SelfConnection,
}

/// A node as the contracts see it: its kind and the source of each input port.
pub struct NodeView {
    pub kind: UnitKind,
    pub sources: Seq<Option<Port>>,
}

/// A graph as the contracts see it.
pub struct GraphView {
    pub nodes: Seq<NodeView>,
    pub outputs: Seq<Option<Port>>,
    pub inputs: nat,
}

/// `n` input ports without a source.
pub open spec fn unwired(n: nat) -> Seq<Option<Port>> {
    Seq::new(n, |j: int| None::<Port>)
}

impl GraphView {
    /// A graph without nodes, with `outputs` unbound output channels.
    pub open spec fn empty(inputs: nat, outputs: nat) -> GraphView {
        GraphView { nodes: Seq::<NodeView>::empty(), outputs: unwired(outputs), inputs }
    }

    /// Whether `p` is an output port of a node of this graph.
    pub open spec fn has_port(self, p: Port) -> bool {
        p.node < self.nodes.len() && p.port < self.nodes[p.node as int].kind.output_count()
    }

    /// Whether a source slot is empty or names an output port of this graph.
    pub open spec fn slot_ok(self, s: Option<Port>) -> bool {
        s matches Some(p) ==> self.has_port(p)
    }

    /// Whether every source slot of `sources` is `slot_ok`.
    pub open spec fn slots_ok(self, sources: Seq<Option<Port>>) -> bool {
        forall|j: int| 0 <= j < sources.len() ==> self.slot_ok(#[trigger] sources[j])
    }

    /// The wiring is valid: every node has one source slot per input port of
    /// its kind, and every source names an existing output port.
    pub open spec fn wf(self) -> bool {
        &&& forall|i: int|
            0 <= i < self.nodes.len() ==> (#[trigger] self.nodes[i]).sources.len()
                == self.nodes[i].kind.input_count()
        &&& forall|i: int|
            0 <= i < self.nodes.len() ==> self.slots_ok((#[trigger] self.nodes[i]).sources)
        &&& self.slots_ok(self.outputs)
    }

    /// Every node reads only from nodes before it, so that running the nodes
    /// in index order runs each after all it depends on.
    pub open spec fn feed_forward(self) -> bool {
        forall|i: int, j: int|
            0 <= i < self.nodes.len() && 0 <= j < self.nodes[i].sources.len() ==> (
            #[trigger] self.nodes[i].sources[j] matches Some(p) ==> p.node < i)
    }

    /// The graph with one more node, none of whose inputs has a source.
    pub open spec fn push(self, kind: UnitKind) -> GraphView {
        self.with_node(kind, unwired(kind.input_count()))
    }

    /// The graph with one more node whose inputs read from `sources`.
    pub open spec fn with_node(self, kind: UnitKind, sources: Seq<Option<Port>>) -> GraphView {
        GraphView { nodes: self.nodes.push(NodeView { kind, sources }), ..self }
    }

    /// No node reads from itself.
    pub open spec fn loop_free(self) -> bool {
        forall|i: int, j: int|
            0 <= i < self.nodes.len() && 0 <= j < self.nodes[i].sources.len() ==> (
            #[trigger] self.nodes[i].sources[j] matches Some(p) ==> p.node != i)
    }

    /// The graph is validly wired, feed-forward, and small enough that its
    /// node ids fit `usize`.
    pub open spec fn sound(self) -> bool {
        self.wf() && self.feed_forward() && self.nodes.len() <= usize::MAX
    }

    /// The graph is sound and has a node to chain from.
    pub open spec fn chainable(self) -> bool {
        self.sound() && 0 < self.nodes.len()
    }

    /// The graph is a stereo source: it takes no input, and each of its two
    /// output channels has a source.
    pub open spec fn stereo_source(self) -> bool {
        &&& self.inputs == 0
        &&& self.outputs.len() == 2
        &&& self.outputs[0] is Some
        &&& self.outputs[1] is Some
    }

    /// Whether `other` has all the nodes of this graph, at the same indices and unchanged.
    pub open spec fn is_prefix_of(self, other: GraphView) -> bool {
        &&& self.nodes.len() <= other.nodes.len()
        &&& forall|i: int| 0 <= i < self.nodes.len() ==> #[trigger] other.nodes[i] == self.nodes[i]
    }

    /// Output 0 of the node added last.
    pub open spec fn tail(self) -> Port {
        Port { node: (self.nodes.len() - 1) as usize, port: 0 }
    }

    /// The graph with one more node, whose single input reads from the node added last.
    pub open spec fn chain(self, kind: UnitKind) -> GraphView {
        self.with_node(kind, seq![Some(self.tail())])
    }

    /// The graph in which input `dst_port` of node `dst` reads from `src`.
    pub open spec fn connect(self, src: Port, dst: int, dst_port: int) -> GraphView {
        GraphView {
            nodes: self.nodes.update(
                dst,
                NodeView {
                    kind: self.nodes[dst].kind,
                    sources: self.nodes[dst].sources.update(dst_port, Some(src)),
                },
            ),
            ..self
        }
    }

    /// The graph in which output channel `channel` reads from `src`.
    pub open spec fn bind_output(self, src: Port, channel: int) -> GraphView {
        GraphView { outputs: self.outputs.update(channel, Some(src)), ..self }
    }

    /// The error that `connect` reports for these arguments, if any.
    pub open spec fn connect_error(
        self,
        src: Port,
        dst: int,
        dst_port: int,
    ) -> Option<InvalidWiring> {
        if src.node >= self.nodes.len() || dst >= self.nodes.len() {
            Some(InvalidWiring::UnknownNode)
        } else if src.port >= self.nodes[src.node as int].kind.output_count() || dst_port
            >= self.nodes[dst].kind.input_count() {
            Some(InvalidWiring::PortOutOfRange)
        } else {
            None
        }
    }

    /// The error that `connect_output` reports for these arguments, if any.
    pub open spec fn bind_error(self, src: Port, channel: int) -> Option<InvalidWiring> {
        if src.node >= self.nodes.len() {
            Some(InvalidWiring::UnknownNode)
        } else if src.port >= self.nodes[src.node as int].kind.output_count() || channel
            >= self.outputs.len() {
            Some(InvalidWiring::PortOutOfRange)
        } else {
            None
        }
    }
}

/// Adding a node whose sources exist keeps the wiring valid.
pub proof fn lemma_with_node_wf(g: GraphView, kind: UnitKind, sources: Seq<Option<Port>>)
    requires
        g.wf(),
        sources.len() == kind.input_count(),
        g.slots_ok(sources),
    ensures
        g.with_node(kind, sources).wf(),
{
    let h = g.with_node(kind, sources);
    assert forall|s: Option<Port>| g.slot_ok(s) implies h.slot_ok(s) by {
        if let Some(p) = s {
            assert(h.nodes[p.node as int] == g.nodes[p.node as int]);
        }
    }
    assert forall|i: int| 0 <= i < h.nodes.len() implies h.slots_ok(
        (#[trigger] h.nodes[i]).sources,
    ) by {
        if i < g.nodes.len() {
            assert(h.nodes[i] == g.nodes[i]);
            assert(g.slots_ok(g.nodes[i].sources));
        }
    }
    assert forall|i: int| 0 <= i < h.nodes.len() implies (#[trigger] h.nodes[i]).sources.len()
        == h.nodes[i].kind.input_count() by {
        if i < g.nodes.len() {
            assert(h.nodes[i] == g.nodes[i]);
        }
    }
}

/// Adding a node that reads only from existing nodes keeps the graph feed-forward.
pub proof fn lemma_with_node_feed_forward(
    g: GraphView,
    kind: UnitKind,
    sources: Seq<Option<Port>>,
)
    requires
        g.feed_forward(),
        g.slots_ok(sources),
    ensures
        g.with_node(kind, sources).feed_forward(),
{
    let h = g.with_node(kind, sources);
    assert forall|i: int, j: int|
        0 <= i < h.nodes.len() && 0 <= j < h.nodes[i].sources.len() implies (
    #[trigger] h.nodes[i].sources[j] matches Some(p) ==> p.node < i) by {
        if i < g.nodes.len() {
            assert(h.nodes[i] == g.nodes[i]);
        } else {
            assert(g.slot_ok(sources[j]));
        }
    }
}

/// Connecting an existing output port to an existing input port keeps the wiring valid.
pub proof fn lemma_connect_wf(g: GraphView, src: Port, dst: int, dst_port: int)
    requires
        g.wf(),
        0 <= dst,
        0 <= dst_port,
        g.connect_error(src, dst, dst_port) is None,
    ensures
        g.connect(src, dst, dst_port).wf(),
{
    let h = g.connect(src, dst, dst_port);
    assert forall|i: int| 0 <= i < h.nodes.len() implies (#[trigger] h.nodes[i]).kind
        == g.nodes[i].kind by {}
    assert forall|s: Option<Port>| g.slot_ok(s) implies h.slot_ok(s) by {
        if let Some(p) = s {
            assert(h.nodes[p.node as int].kind == g.nodes[p.node as int].kind);
        }
    }
    assert(h.slot_ok(Some(src)));
    assert forall|i: int| 0 <= i < h.nodes.len() implies h.slots_ok(
        (#[trigger] h.nodes[i]).sources,
    ) by {
        assert(g.slots_ok(g.nodes[i].sources));
        assert forall|j: int| 0 <= j < h.nodes[i].sources.len() implies h.slot_ok(
            #[trigger] h.nodes[i].sources[j],
        ) by {
            if i == dst && j == dst_port {
            } else {
                assert(h.nodes[i].sources[j] == g.nodes[i].sources[j]);
                assert(g.slot_ok(g.nodes[i].sources[j]));
            }
        }
    }
    assert forall|c: int| 0 <= c < h.outputs.len() implies h.slot_ok(#[trigger] h.outputs[c]) by {
        assert(g.slot_ok(g.outputs[c]));
    }
}

/// Binding an output channel to an existing output port keeps the wiring valid.
pub proof fn lemma_bind_output_wf(g: GraphView, src: Port, channel: int)
    requires
        g.wf(),
        0 <= channel,
        g.bind_error(src, channel) is None,
    ensures
        g.bind_output(src, channel).wf(),
{
    let h = g.bind_output(src, channel);
    assert forall|i: int| 0 <= i < h.nodes.len() implies h.slots_ok(
        (#[trigger] h.nodes[i]).sources,
    ) by {
        assert(g.slots_ok(g.nodes[i].sources));
    }
    assert forall|c: int| 0 <= c < h.outputs.len() implies h.slot_ok(#[trigger] h.outputs[c]) by {
        if c != channel {
            assert(g.slot_ok(g.outputs[c]));
        }
    }
}

/// A node: its kind and the source of each of its input ports.
struct Node {
    kind: UnitKind,
    sources: Vec<Option<Port>>,
}

impl View for Node {
    type V = NodeView;

    closed spec fn view(&self) -> NodeView {
        NodeView { kind: self.kind, sources: self.sources@ }
    }
}

/// A signal graph.
pub struct Graph {
    nodes: Vec<Node>,
    outputs: Vec<Option<Port>>,
    inputs: usize,
}

impl View for Graph {
    type V = GraphView;

    closed spec fn view(&self) -> GraphView {
        GraphView {
            nodes: Seq::new(self.nodes@.len(), |i: int| self.nodes@[i]@),
            outputs: self.outputs@,
            inputs: self.inputs as nat,
        }
    }
}

/// A vector of `n` empty source slots.
fn unwired_slots(n: usize) -> (v: Vec<Option<Port>>)
    ensures
        v@ == unwired(n as nat),
{
    let mut v: Vec<Option<Port>> = Vec::new();
    let mut i: usize = 0;
    while i < n
        invariant
            i <= n,
            v@ == unwired(i as nat),
        decreases n - i,
    {
        v.push(None);
        i += 1;
        assert(v@ =~= unwired(i as nat));
    }
    v
}

/// A copy of a vector of source slots.
fn copy_slots(slots: &Vec<Option<Port>>) -> (v: Vec<Option<Port>>)
    ensures
        v@ == slots@,
{
    let mut v: Vec<Option<Port>> = Vec::new();
    let mut i: usize = 0;
    while i < slots.len()
        invariant
            i <= slots.len(),
            v@ == slots@.take(i as int),
        decreases slots.len() - i,
    {
        v.push(slots[i]);
        i += 1;
        assert(v@ =~= slots@.take(i as int));
    }
    assert(slots@.take(slots.len() as int) =~= slots@);
    v
}

/// No sources: the inputs of a unit that has none.
pub fn no_sources() -> (v: Vec<Option<Port>>)
    ensures
        v@ == Seq::<Option<Port>>::empty(),
{
    let v: Vec<Option<Port>> = Vec::new();
    v
}

/// The sources of a unit with one input.
pub fn sources1(a: Port) -> (v: Vec<Option<Port>>)
    ensures
        v@ == seq![Some(a)],
{
    let mut v: Vec<Option<Port>> = Vec::new();
    v.push(Some(a));
    assert(v@ =~= seq![Some(a)]);
    v
}

/// The sources of a unit with two inputs.
pub fn sources2(a: Port, b: Port) -> (v: Vec<Option<Port>>)
    ensures
        v@ == seq![Some(a), Some(b)],
{
    let mut v: Vec<Option<Port>> = Vec::new();
    v.push(Some(a));
    v.push(Some(b));
    assert(v@ =~= seq![Some(a), Some(b)]);
    v
}

/// The sources of a unit with three inputs.
pub fn sources3(a: Port, b: Port, c: Port) -> (v: Vec<Option<Port>>)
    ensures
        v@ == seq![Some(a), Some(b), Some(c)],
{
    let mut v: Vec<Option<Port>> = Vec::new();
    v.push(Some(a));
    v.push(Some(b));
    v.push(Some(c));
    assert(v@ =~= seq![Some(a), Some(b), Some(c)]);
    v
}

/// Output 0 of node `node`.
pub fn out(node: usize) -> (p: Port)
    ensures
        p == (Port { node, port: 0 }),
{
    Port { node, port: 0 }
}

impl Graph {
    /// A graph without nodes, with `inputs` input and `outputs` output
    /// channels; no output channel has a source yet.
    pub fn new(inputs: usize, outputs: usize) -> (g: Graph)
        ensures
            g@ == GraphView::empty(inputs as nat, outputs as nat),
            g@.wf(),
            g@.feed_forward(),
    {
        let g = Graph { nodes: Vec::new(), outputs: unwired_slots(outputs), inputs };
        assert(g@.nodes =~= Seq::empty());
        g
    }

    /// The number of nodes.
    pub fn size(&self) -> (n: usize)
        ensures
            n == self@.nodes.len(),
    {
        self.nodes.len()
    }

    /// The number of input channels of the graph.
    pub fn inputs(&self) -> (n: usize)
        ensures
            n == self@.inputs,
    {
        self.inputs
    }

    /// The number of output channels of the graph.
    pub fn outputs(&self) -> (n: usize)
        ensures
            n == self@.outputs.len(),
    {
        self.outputs.len()
    }

    /// The kind of node `id`, where there is such a node.
    pub fn kind(&self, id: usize) -> (r: Option<UnitKind>)
        ensures
            r == if id < self@.nodes.len() {
                Some(self@.nodes[id as int].kind)
            } else {
                None
            },
    {
        if id < self.nodes.len() {
            Some(self.nodes[id].kind)
        } else {
            None
        }
    }

    /// The source of input `port` of node `id`; `None` also where there is no such port.
    pub fn source(&self, id: usize, port: usize) -> (r: Option<Port>)
        ensures
            r == if id < self@.nodes.len() && port < self@.nodes[id as int].sources.len() {
                self@.nodes[id as int].sources[port as int]
            } else {
                None
            },
    {
        if id < self.nodes.len() {
            let node = &self.nodes[id];
            if port < node.sources.len() {
                node.sources[port]
            } else {
                None
            }
        } else {
            None
        }
    }

    /// The source of output channel `channel`; `None` also where there is no such channel.
    pub fn output_source(&self, channel: usize) -> (r: Option<Port>)
        ensures
            r == if channel < self@.outputs.len() {
                self@.outputs[channel as int]
            } else {
                None
            },
    {
        if channel < self.outputs.len() {
            self.outputs[channel]
        } else {
            None
        }
    }

    /// Adds a unit, none of whose inputs has a source, and returns its node id.
    pub fn push(&mut self, kind: UnitKind) -> (id: usize)
        ensures
            id == old(self)@.nodes.len(),
            final(self)@ == old(self)@.push(kind),
            old(self)@.wf() ==> final(self)@.wf(),
            old(self)@.feed_forward() ==> final(self)@.feed_forward(),
    {
        let id = self.nodes.len();
        let sources = unwired_slots(kind.inputs());
        self.nodes.push(Node { kind, sources });
        proof {
            let g = old(self)@;
            assert(self@.nodes =~= g.push(kind).nodes);
            if g.wf() {
                lemma_with_node_wf(g, kind, unwired(kind.input_count()));
            }
            if g.feed_forward() {
                lemma_with_node_feed_forward(g, kind, unwired(kind.input_count()));
            }
        }
        id
    }

    /// Adds a unit whose inputs read from `sources`, and returns its node id.
    ///
    /// This is how a graph is built front to back: every source must already
    /// be in the graph, so the result stays feed-forward.
    pub fn add(&mut self, kind: UnitKind, sources: Vec<Option<Port>>) -> (id: usize)
        requires
            sources@.len() == kind.input_count(),
            old(self)@.slots_ok(sources@),
        ensures
            id == old(self)@.nodes.len(),
            final(self)@ == old(self)@.with_node(kind, sources@),
            final(self)@.nodes.len() == id + 1 <= usize::MAX,
            final(self)@.tail() == (Port { node: id, port: 0 }),
            old(self)@.is_prefix_of(final(self)@),
            old(self)@.wf() ==> final(self)@.wf(),
            old(self)@.feed_forward() ==> final(self)@.feed_forward(),
            signals_kept(old(self)@, final(self)@),
            forall|port: usize| #[trigger]
                signal_at(final(self)@, Port { node: id, port }) == (Signal::Unit {
                    kind,
                    port,
                    inputs: signals_of_slots(old(self)@, id as nat, sources@),
                }),
    {
        let id = self.nodes.len();
        let ghost slots = sources@;
        self.nodes.push(Node { kind, sources });
        let n = self.nodes.len();
        proof {
            let g = old(self)@;
            lemma_signals_kept(g, g.with_node(kind, slots));
            assert forall|port: usize| #[trigger]
                signal_at(g.with_node(kind, slots), Port { node: id, port }) == (Signal::Unit {
                    kind,
                    port,
                    inputs: signals_of_slots(g, id as nat, slots),
                }) by {
                lemma_signal_added(g, kind, slots, port);
            }
            assert(self@.nodes =~= g.with_node(kind, slots).nodes);
            if g.wf() {
                lemma_with_node_wf(g, kind, slots);
            }
            if g.feed_forward() {
                lemma_with_node_feed_forward(g, kind, slots);
            }
        }
        id
    }

    /// Adds a unit without inputs, and returns its node id.
    pub fn leaf(&mut self, kind: UnitKind) -> (id: usize)
        requires
            kind.input_count() == 0,
        ensures
            id == old(self)@.nodes.len(),
            final(self)@ == old(self)@.with_node(kind, seq![]),
            final(self)@.nodes.len() == id + 1 <= usize::MAX,
            final(self)@.tail() == (Port { node: id, port: 0 }),
            old(self)@.is_prefix_of(final(self)@),
            old(self)@.wf() ==> final(self)@.wf(),
            old(self)@.feed_forward() ==> final(self)@.feed_forward(),
            signals_kept(old(self)@, final(self)@),
            forall|port: usize| #[trigger]
                signal_at(final(self)@, Port { node: id, port }) == (Signal::Unit {
                    kind,
                    port,
                    inputs: seq![],
                }),
    {
        proof {
            lemma_slots0(self@, self@.nodes.len());
        }
        self.add(kind, no_sources())
    }

    /// Adds a unit whose one input reads from `a`, and returns its node id.
    pub fn unary(&mut self, kind: UnitKind, a: Port) -> (id: usize)
        requires
            kind.input_count() == 1,
            old(self)@.has_port(a),
        ensures
            id == old(self)@.nodes.len(),
            final(self)@ == old(self)@.with_node(kind, seq![Some(a)]),
            final(self)@.nodes.len() == id + 1 <= usize::MAX,
            final(self)@.tail() == (Port { node: id, port: 0 }),
            old(self)@.is_prefix_of(final(self)@),
            old(self)@.wf() ==> final(self)@.wf(),
            old(self)@.feed_forward() ==> final(self)@.feed_forward(),
            signals_kept(old(self)@, final(self)@),
            forall|port: usize| #[trigger]
                signal_at(final(self)@, Port { node: id, port }) == (Signal::Unit {
                    kind,
                    port,
                    inputs: seq![signal_at(old(self)@, a)],
                }),
    {
        proof {
            lemma_slots1(self@, self@.nodes.len(), a);
        }
        self.add(kind, sources1(a))
    }

    /// Adds a unit whose two inputs read from `a` and `b`, and returns its node id.
    pub fn binary(&mut self, kind: UnitKind, a: Port, b: Port) -> (id: usize)
        requires
            kind.input_count() == 2,
            old(self)@.has_port(a),
            old(self)@.has_port(b),
        ensures
            id == old(self)@.nodes.len(),
            final(self)@ == old(self)@.with_node(kind, seq![Some(a), Some(b)]),
            final(self)@.nodes.len() == id + 1 <= usize::MAX,
            final(self)@.tail() == (Port { node: id, port: 0 }),
            old(self)@.is_prefix_of(final(self)@),
            old(self)@.wf() ==> final(self)@.wf(),
            old(self)@.feed_forward() ==> final(self)@.feed_forward(),
            signals_kept(old(self)@, final(self)@),
            forall|port: usize| #[trigger]
                signal_at(final(self)@, Port { node: id, port }) == (Signal::Unit {
                    kind,
                    port,
                    inputs: seq![signal_at(old(self)@, a), signal_at(old(self)@, b)],
                }),
    {
        proof {
            lemma_slots2(self@, self@.nodes.len(), a, b);
        }
        self.add(kind, sources2(a, b))
    }

    /// Adds a unit whose three inputs read from `a`, `b` and `c`, and returns its node id.
    pub fn ternary(&mut self, kind: UnitKind, a: Port, b: Port, c: Port) -> (id: usize)
        requires
            kind.input_count() == 3,
            old(self)@.has_port(a),
            old(self)@.has_port(b),
            old(self)@.has_port(c),
        ensures
            id == old(self)@.nodes.len(),
            final(self)@ == old(self)@.with_node(kind, seq![Some(a), Some(b), Some(c)]),
            final(self)@.nodes.len() == id + 1 <= usize::MAX,
            final(self)@.tail() == (Port { node: id, port: 0 }),
            old(self)@.is_prefix_of(final(self)@),
            old(self)@.wf() ==> final(self)@.wf(),
            old(self)@.feed_forward() ==> final(self)@.feed_forward(),
            signals_kept(old(self)@, final(self)@),
            forall|port: usize| #[trigger]
                signal_at(final(self)@, Port { node: id, port }) == (Signal::Unit {
                    kind,
                    port,
                    inputs: seq![
                        signal_at(old(self)@, a),
                        signal_at(old(self)@, b),
                        signal_at(old(self)@, c),
                    ],
                }),
    {
        proof {
            lemma_slots3(self@, self@.nodes.len(), a, b, c);
        }
        self.add(kind, sources3(a, b, c))
    }

    /// Makes input `dst_port` of node `dst` read from output `src_port` of
    /// node `src`, in place of whatever it read before.
    ///
    /// Fails, leaving the graph as it was, when a node id is unknown or a
    /// port index is not below the unit's number of such ports.
    pub fn connect(&mut self, src: usize, src_port: usize, dst: usize, dst_port: usize) -> (r:
        Result<(), InvalidWiring>)
        requires
            old(self)@.wf(),
        ensures
            final(self)@.wf(),
            match old(self)@.connect_error(
                Port { node: src, port: src_port },
                dst as int,
                dst_port as int,
            ) {
                Some(e) => r == Err::<(), InvalidWiring>(e) && final(self)@ == old(self)@,
                None => r is Ok && final(self)@ == old(self)@.connect(
                    Port { node: src, port: src_port },
                    dst as int,
                    dst_port as int,
                ),
            },
    {
        if src >= self.nodes.len() || dst >= self.nodes.len() {
            return Err(InvalidWiring::UnknownNode);
        }
        assert(self@.nodes[dst as int] == self.nodes@[dst as int]@);
        assert(self@.nodes[src as int] == self.nodes@[src as int]@);
        if src_port >= self.nodes[src].kind.outputs() || dst_port >= self.nodes[dst].kind.inputs() {
            return Err(InvalidWiring::PortOutOfRange);
        }
        let kind = self.nodes[dst].kind;
        let mut sources = copy_slots(&self.nodes[dst].sources);
        sources.set(dst_port, Some(Port { node: src, port: src_port }));
        self.nodes.set(dst, Node { kind, sources });
        proof {
            let g = old(self)@;
            let p = Port { node: src, port: src_port };
            assert(self@.nodes =~= g.connect(p, dst as int, dst_port as int).nodes);
            lemma_connect_wf(g, p, dst as int, dst_port as int);
        }
        Ok(())
    }

    /// Makes output channel `channel` of the graph read from output `port`
    /// of node `node`, in place of whatever it read before.
    ///
    /// Fails, leaving the graph as it was, when the node id is unknown, the
    /// port index is not below the unit's number of outputs, or the channel
    /// index is not below the graph's number of outputs.
    pub fn connect_output(&mut self, node: usize, port: usize, channel: usize) -> (r: Result<
        (),
        InvalidWiring,
    >)
        requires
            old(self)@.wf(),
        ensures
            final(self)@.wf(),
            signals_kept(old(self)@, final(self)@),
            match old(self)@.bind_error(Port { node, port }, channel as int) {
                Some(e) => r == Err::<(), InvalidWiring>(e) && final(self)@ == old(self)@,
                None => r is Ok && final(self)@ == old(self)@.bind_output(
                    Port { node, port },
                    channel as int,
                ),
            },
    {
        proof {
            lemma_signals_kept(self@, self@);
        }
        if node >= self.nodes.len() {
            return Err(InvalidWiring::UnknownNode);
        }
        assert(self@.nodes[node as int] == self.nodes@[node as int]@);
        if port >= self.nodes[node].kind.outputs() || channel >= self.outputs.len() {
            return Err(InvalidWiring::PortOutOfRange);
        }
        self.outputs.set(channel, Some(Port { node, port }));
        proof {
            lemma_bind_output_wf(old(self)@, Port { node, port }, channel as int);
            lemma_bind_keeps_signals(old(self)@, Port { node, port }, channel as int);
        }
        Ok(())
    }

    /// Whether every node reads only from nodes before it.
    pub fn is_feed_forward(&self) -> (r: bool)
        ensures
            r == self@.feed_forward(),
    {
        let mut i: usize = 0;
        while i < self.nodes.len()
            invariant
                i <= self.nodes.len(),
                forall|a: int, b: int|
                    0 <= a < i && 0 <= b < self@.nodes[a].sources.len() ==> (
                    #[trigger] self@.nodes[a].sources[b] matches Some(p) ==> p.node < a),
            decreases self.nodes.len() - i,
        {
            let node = &self.nodes[i];
            assert(self@.nodes[i as int] == node@);
            let mut j: usize = 0;
            while j < node.sources.len()
                invariant
                    j <= node.sources.len(),
                    i < self.nodes.len(),
                    self@.nodes[i as int] == node@,
                    forall|b: int|
                        0 <= b < j ==> (#[trigger] node@.sources[b] matches Some(p) ==> p.node < i),
                decreases node.sources.len() - j,
            {
                if let Some(p) = node.sources[j] {
                    if p.node >= i {
                        assert(!(self@.nodes[i as int].sources[j as int] matches Some(q) ==> q.node
                            < i));
                        return false;
                    }
                }
                j += 1;
            }
            i += 1;
        }
        true
    }

    /// Whether no node reads from itself.
    pub fn is_loop_free(&self) -> (r: bool)
        ensures
            r == self@.loop_free(),
    {
        let mut i: usize = 0;
        while i < self.nodes.len()
            invariant
                i <= self.nodes.len(),
                forall|a: int, b: int|
                    0 <= a < i && 0 <= b < self@.nodes[a].sources.len() ==> (
                    #[trigger] self@.nodes[a].sources[b] matches Some(p) ==> p.node != a),
            decreases self.nodes.len() - i,
        {
            let node = &self.nodes[i];
            assert(self@.nodes[i as int] == node@);
            let mut j: usize = 0;
            while j < node.sources.len()
                invariant
                    j <= node.sources.len(),
                    i < self.nodes.len(),
                    self@.nodes[i as int] == node@,
                    forall|b: int|
                        0 <= b < j ==> (#[trigger] node@.sources[b] matches Some(p) ==> p.node != i),
                decreases node.sources.len() - j,
            {
                if let Some(p) = node.sources[j] {
                    if p.node == i {
                        assert(!(self@.nodes[i as int].sources[j as int] matches Some(q) ==> q.node
                            != i));
                        return false;
                    }
                }
                j += 1;
            }
            i += 1;
        }
        true
    }

    /// Whether a source slot is empty or names an output port of this graph.
    fn slot_is_ok(&self, slot: Option<Port>) -> (r: bool)
        ensures
            r == self@.slot_ok(slot),
    {
        match slot {
            Some(p) => {
                if p.node < self.nodes.len() {
                    assert(self@.nodes[p.node as int] == self.nodes@[p.node as int]@);
                    p.port < self.nodes[p.node].kind.outputs()
                } else {
                    false
                }
            },
            None => true,
        }
    }

    /// Whether every slot of `slots` is empty or names an output port of this graph.
    fn slots_are_ok(&self, slots: &Vec<Option<Port>>) -> (r: bool)
        ensures
            r == self@.slots_ok(slots@),
    {
        let mut j: usize = 0;
        while j < slots.len()
            invariant
                j <= slots.len(),
                forall|b: int| 0 <= b < j ==> self@.slot_ok(#[trigger] slots@[b]),
            decreases slots.len() - j,
        {
            if !self.slot_is_ok(slots[j]) {
                return false;
            }
            j += 1;
        }
        true
    }

    /// Whether the wiring is valid.  Every graph that this module hands out
    /// is; the test is for callers that cannot rely on proofs.
    pub fn is_valid(&self) -> (r: bool)
        ensures
            r == self@.wf(),
    {
        let mut i: usize = 0;
        while i < self.nodes.len()
            invariant
                i <= self.nodes.len(),
                forall|a: int|
                    0 <= a < i ==> (#[trigger] self@.nodes[a]).sources.len()
                        == self@.nodes[a].kind.input_count(),
                forall|a: int| 0 <= a < i ==> self@.slots_ok((#[trigger] self@.nodes[a]).sources),
            decreases self.nodes.len() - i,
        {
            let node = &self.nodes[i];
            assert(self@.nodes[i as int] == node@);
            if node.sources.len() != node.kind.inputs() || !self.slots_are_ok(&node.sources) {
                return false;
            }
            i += 1;
        }
        self.slots_are_ok(&self.outputs)
    }

    /// An independent copy of the graph.
    pub fn duplicate(&self) -> (g: Graph)
        ensures
            g@ == self@,
    {
        let mut nodes: Vec<Node> = Vec::new();
        let mut i: usize = 0;
        while i < self.nodes.len()
            invariant
                i <= self.nodes.len(),
                nodes@.len() == i,
                forall|k: int| 0 <= k < i ==> (#[trigger] nodes@[k])@ == self.nodes@[k]@,
            decreases self.nodes.len() - i,
        {
            let node = &self.nodes[i];
            nodes.push(Node { kind: node.kind, sources: copy_slots(&node.sources) });
            i += 1;
        }
        let g = Graph { nodes, outputs: copy_slots(&self.outputs), inputs: self.inputs };
        assert(g@.nodes =~= self@.nodes);
        g
    }
}

impl Clone for Graph {
    fn clone(&self) -> (g: Graph)
        ensures
            g@ == self@,
    {
        self.duplicate()
    }
}

} // verus!
