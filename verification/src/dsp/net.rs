//! Wiring a graph onto a `fundsp` network.
//!
//! The units of a network hold running state and are made outside this
//! library, one per node of the graph.  This module puts them into a
//! network and connects them as the graph says.  The operations of the
//! network panic on unknown nodes and ports; the wiring here is proved
//! never to ask for one.

use vstd::prelude::*;
use crate::dsp::graph::{unwired, Graph, GraphView, InvalidWiring, Port};
use fundsp::audiounit::AudioUnit;
use fundsp::net::{Net, NodeId};

verus! {

/// A network of audio units of the `fundsp` crate.
#[verifier::external_type_specification]
#[verifier::external_body]
pub struct ExNet(Net);

/// The handle of a unit in a `fundsp` network.
#[verifier::external_type_specification]
#[verifier::external_body]
pub struct ExNodeId(NodeId);

/// A unit of a network as the contracts see it: the raw value of its
/// handle, its numbers of inputs and outputs, and the source of each input.
pub struct NetNode {
    pub id: u64,
    pub inputs: nat,
    pub outputs: nat,
    pub sources: Seq<Option<Port>>,
}

/// The raw value of a handle, as `NodeId::value` returns it.
pub uninterp spec fn node_id_value(id: NodeId) -> u64;

/// The units of a network, in the order in which they were pushed.
pub uninterp spec fn net_nodes(net: Net) -> Seq<NetNode>;

/// The source of each output channel of a network.
pub uninterp spec fn net_outputs(net: Net) -> Seq<Option<Port>>;

/// The number of inputs of a unit, as `AudioUnit::inputs` returns it.
pub uninterp spec fn unit_inputs(unit: Net) -> nat;

/// The number of outputs of a unit, as `AudioUnit::outputs` returns it.
pub uninterp spec fn unit_outputs(unit: Net) -> nat;

/// Whether `index` is the place of the unit with handle `id`.
pub open spec fn is_at(net: Net, id: NodeId, index: int) -> bool {
    0 <= index < net_nodes(net).len() && net_nodes(net)[index].id == node_id_value(id)
}

/// Whether the network holds a unit with handle `id`.
pub open spec fn holds(net: Net, id: NodeId) -> bool {
    exists|index: int| is_at(net, id, index)
}

/// `Net::new`: a network without units whose `outputs` output channels have no source.
#[verifier::external_body]
fn net_new(inputs: usize, outputs: usize) -> (net: Net)
    ensures
        net_nodes(net) == Seq::<NetNode>::empty(),
        net_outputs(net) == unwired(outputs as nat),
{
    Net::new(inputs, outputs)
}

/// `AudioUnit::inputs` of a unit.
#[verifier::external_body]
fn inputs_of(unit: &Net) -> (n: usize)
    ensures
        n == unit_inputs(*unit),
{
    unit.inputs()
}

/// `AudioUnit::outputs` of a unit.
#[verifier::external_body]
fn outputs_of(unit: &Net) -> (n: usize)
    ensures
        n == unit_outputs(*unit),
{
    unit.outputs()
}

/// `Net::push`: the unit is appended with its numbers of inputs and outputs
/// and gets a handle that no unit of the network has; its inputs have no
/// source.  The units that were there, and the outputs, stay as they were.
#[verifier::external_body]
fn net_push(net: &mut Net, unit: Net) -> (id: NodeId)
    ensures
        net_nodes(*final(net)).len() == net_nodes(*old(net)).len() + 1,
        net_nodes(*final(net)).drop_last() == net_nodes(*old(net)),
        net_nodes(*final(net)).last().id == node_id_value(id),
        net_nodes(*final(net)).last().inputs == unit_inputs(unit),
        net_nodes(*final(net)).last().outputs == unit_outputs(unit),
        net_nodes(*final(net)).last().sources == unwired(unit_inputs(unit)),
        !holds(*old(net), id),
        net_outputs(*final(net)) == net_outputs(*old(net)),
{
    net.push(Box::new(unit))
}

/// `Net::connect`: input `target_port` of the unit `target` reads from
/// output `source_port` of the unit `source`; nothing else changes.
#[verifier::external_body]
fn net_connect(
    net: &mut Net,
    source: NodeId,
    source_port: usize,
    target: NodeId,
    target_port: usize,
)
    requires
        holds(*old(net), source),
        holds(*old(net), target),
        node_id_value(source) != node_id_value(target),
        forall|s: int| is_at(*old(net), source, s) ==> source_port < net_nodes(*old(net))[s].outputs,
        forall|t: int|
            is_at(*old(net), target, t) ==> target_port < net_nodes(*old(net))[t].sources.len(),
    ensures
        forall|s: int, t: int|
            is_at(*old(net), source, s) && is_at(*old(net), target, t) ==> net_nodes(*final(net))
                == net_nodes(*old(net)).update(
                t,
                NetNode {
                    sources: net_nodes(*old(net))[t].sources.update(
                        target_port as int,
                        Some(Port { node: s as usize, port: source_port }),
                    ),
                    ..net_nodes(*old(net))[t]
                },
            ),
        net_outputs(*final(net)) == net_outputs(*old(net)),
{
    net.connect(source, source_port, target, target_port)
}

/// `Net::connect_output`: output channel `channel` of the network reads
/// from output `source_port` of the unit `source`; nothing else changes.
#[verifier::external_body]
fn net_connect_output(net: &mut Net, source: NodeId, source_port: usize, channel: usize)
    requires
        holds(*old(net), source),
        forall|s: int| is_at(*old(net), source, s) ==> source_port < net_nodes(*old(net))[s].outputs,
        channel < net_outputs(*old(net)).len(),
    ensures
        forall|s: int|
            is_at(*old(net), source, s) ==> net_outputs(*final(net)) == net_outputs(
                *old(net),
            ).update(channel as int, Some(Port { node: s as usize, port: source_port })),
        net_nodes(*final(net)) == net_nodes(*old(net)),
{
    net.connect_output(source, source_port, channel)
}

/// Whether the network has the units and connections that the graph asks
/// for: unit for node, with the node's numbers of inputs and outputs and
/// the node's sources, and output for output.
pub open spec fn mirrors(net: Net, g: GraphView) -> bool {
    &&& net_nodes(net).len() == g.nodes.len()
    &&& forall|i: int|
        0 <= i < g.nodes.len() ==> {
            &&& (#[trigger] net_nodes(net)[i]).inputs == g.nodes[i].kind.input_count()
            &&& net_nodes(net)[i].outputs == g.nodes[i].kind.output_count()
            &&& net_nodes(net)[i].sources == g.nodes[i].sources
        }
    &&& net_outputs(net) == g.outputs
}

/// Whether the units fit the graph: one per node, each with the numbers of
/// inputs and outputs of its node.
pub open spec fn fit(units: Seq<Net>, g: GraphView) -> bool {
    &&& units.len() == g.nodes.len()
    &&& forall|i: int|
        0 <= i < units.len() ==> unit_inputs(#[trigger] units[i]) == g.nodes[i].kind.input_count()
            && unit_outputs(units[i]) == g.nodes[i].kind.output_count()
}

/// Whether the units of the network are those of `ids`, in order and all different.
spec fn tracked_by(net: Net, ids: Seq<NodeId>, count: int) -> bool {
    &&& net_nodes(net).len() == count
    &&& ids.len() == count
    &&& forall|k: int| 0 <= k < count ==> (#[trigger] net_nodes(net)[k]).id == node_id_value(ids[k])
    &&& forall|j: int, k: int|
        0 <= j < k < count ==> (#[trigger] net_nodes(net)[j]).id != (#[trigger] net_nodes(
            net,
        )[k]).id
}

/// Whether the first `count` units of the network have the arities of their
/// nodes, and the inputs that come before input `port` of node `node`, in
/// the order of nodes and ports, are connected as the graph says, and no other.
spec fn wired(net: Net, g: GraphView, count: int, node: int, port: int) -> bool {
    &&& forall|k: int|
        0 <= k < count ==> {
            &&& (#[trigger] net_nodes(net)[k]).inputs == g.nodes[k].kind.input_count()
            &&& net_nodes(net)[k].outputs == g.nodes[k].kind.output_count()
            &&& net_nodes(net)[k].sources.len() == g.nodes[k].sources.len()
        }
    &&& forall|k: int, p: int|
        0 <= k < count && 0 <= p < g.nodes[k].sources.len() ==> #[trigger] net_nodes(
            net,
        )[k].sources[p] == if k < node || (k == node && p < port) {
            g.nodes[k].sources[p]
        } else {
            None
        }
}

/// Where the units of a network are all different, a handle is at one place only.
proof fn lemma_one_place(net: Net, ids: Seq<NodeId>, count: int, k: int)
    requires
        tracked_by(net, ids, count),
        0 <= k < count,
    ensures
        is_at(net, ids[k], k),
        forall|s: int| is_at(net, ids[k], s) ==> s == k,
{
    assert forall|s: int| is_at(net, ids[k], s) implies s == k by {
        if s < k {
            assert(net_nodes(net)[s].id != net_nodes(net)[k].id);
        } else if s > k {
            assert(net_nodes(net)[k].id != net_nodes(net)[s].id);
        }
    }
}

/// Whether each unit has the numbers of inputs and outputs of its node.
fn units_fit(graph: &Graph, units: &Vec<Net>) -> (r: bool)
    ensures
        r == fit(units@, graph@),
{
    if units.len() != graph.size() {
        return false;
    }
    let mut i: usize = 0;
    while i < units.len()
        invariant
            i <= units.len(),
            units@.len() == graph@.nodes.len(),
            forall|k: int|
                0 <= k < i ==> unit_inputs(#[trigger] units@[k]) == graph@.nodes[k].kind.input_count()
                    && unit_outputs(units@[k]) == graph@.nodes[k].kind.output_count(),
        decreases units.len() - i,
    {
        let fits = match graph.kind(i) {
            Some(kind) => inputs_of(&units[i]) == kind.inputs() && outputs_of(&units[i])
                == kind.outputs(),
            None => false,
        };
        if !fits {
            assert(!(unit_inputs(units@[i as int]) == graph@.nodes[i as int].kind.input_count()
                && unit_outputs(units@[i as int]) == graph@.nodes[i as int].kind.output_count()));
            return false;
        }
        i += 1;
    }
    true
}

/// Puts `units` into a new network, unit `i` for node `i` of the graph, and
/// connects them as the graph says.
///
/// Succeeds exactly where no node of the graph reads from itself and the
/// units fit the graph: one per node, each with the numbers of inputs and
/// outputs of its node.  The order of the nodes does not matter; a cycle
/// through several nodes is wired as it stands.
pub fn realize(graph: &Graph, units: Vec<Net>) -> (r: Result<Net, InvalidWiring>)
    requires
        graph@.wf(),
    ensures
        r is Ok <==> graph@.loop_free() && fit(units@, graph@),
        match r {
            Ok(net) => mirrors(net, graph@),
            Err(e) => if !graph@.loop_free() {
                e == InvalidWiring::SelfConnection
            } else {
                e == InvalidWiring::ArityMismatch
            },
        },
{
    if !graph.is_loop_free() {
        return Err(InvalidWiring::SelfConnection);
    }
    if !units_fit(graph, &units) {
        return Err(InvalidWiring::ArityMismatch);
    }
    let n: usize = graph.size();
    let ghost g = graph@;
    let ghost all = units@;
    let mut units = units;
    let mut net = net_new(graph.inputs(), graph.outputs());
    let mut ids: Vec<NodeId> = Vec::new();
    let mut i: usize = 0;
    while i < n
        invariant
            i <= n,
            n == g.nodes.len(),
            g.wf(),
            fit(all, g),
            units@ == all.skip(i as int),
            tracked_by(net, ids@, i as int),
            wired(net, g, i as int, 0, 0),
            net_outputs(net) == unwired(g.outputs.len()),
        decreases n - i,
    {
        let ghost before = net;
        let ghost unit_view = units@[0];
        assert(unit_view == all[i as int]);
        let unit = units.remove(0);
        let id = net_push(&mut net, unit);
        ids.push(id);
        proof {
            assert(units@ =~= all.skip(i + 1));
            assert forall|k: int| 0 <= k < i implies (#[trigger] net_nodes(net)[k]) == net_nodes(
                before,
            )[k] by {
                assert(net_nodes(net).drop_last()[k] == net_nodes(net)[k]);
            }
            assert(net_nodes(net)[i as int] == net_nodes(net).last());
            assert forall|j: int| 0 <= j < i implies (#[trigger] net_nodes(net)[j]).id
                != net_nodes(net)[i as int].id by {
                if net_nodes(net)[j].id == node_id_value(id) {
                    assert(is_at(before, id, j));
                }
            }
            assert(g.nodes[i as int].sources.len() == g.nodes[i as int].kind.input_count());
        }
        i += 1;
    }
    let mut i: usize = 0;
    while i < n
        invariant
            i <= n,
            n == g.nodes.len(),
            g == graph@,
            g.wf(),
            g.loop_free(),
            tracked_by(net, ids@, n as int),
            wired(net, g, n as int, i as int, 0),
            net_outputs(net) == unwired(g.outputs.len()),
        decreases n - i,
    {
        let inputs: usize = match graph.kind(i) {
            Some(kind) => kind.inputs(),
            None => 0,
        };
        assert(inputs == g.nodes[i as int].sources.len());
        let mut j: usize = 0;
        while j < inputs
            invariant
                j <= inputs,
                i < n,
                n == g.nodes.len(),
                g == graph@,
                g.wf(),
                g.loop_free(),
                inputs == g.nodes[i as int].sources.len(),
                tracked_by(net, ids@, n as int),
                wired(net, g, n as int, i as int, j as int),
                net_outputs(net) == unwired(g.outputs.len()),
            decreases inputs - j,
        {
            if let Some(p) = graph.source(i, j) {
                let ghost prior = net;
                proof {
                    assert(g.nodes[i as int].sources[j as int] == Some(p));
                    assert(g.slots_ok(g.nodes[i as int].sources));
                    assert(g.slot_ok(g.nodes[i as int].sources[j as int]));
                    assert(p.node != i);
                    lemma_one_place(net, ids@, n as int, p.node as int);
                    lemma_one_place(net, ids@, n as int, i as int);
                    if p.node < i {
                        assert(net_nodes(net)[p.node as int].id != net_nodes(net)[i as int].id);
                    } else {
                        assert(net_nodes(net)[i as int].id != net_nodes(net)[p.node as int].id);
                    }
                }
                net_connect(&mut net, ids[p.node], p.port, ids[i], j);
                proof {
                    assert(is_at(prior, ids@[p.node as int], p.node as int) && is_at(
                        prior,
                        ids@[i as int],
                        i as int,
                    ));
                    assert(Port { node: p.node as int as usize, port: p.port } == p);
                }
            }
            j += 1;
        }
        i += 1;
    }
    let channels: usize = graph.outputs();
    let mut c: usize = 0;
    while c < channels
        invariant
            c <= channels,
            channels == g.outputs.len(),
            n == g.nodes.len(),
            g == graph@,
            g.wf(),
            tracked_by(net, ids@, n as int),
            wired(net, g, n as int, n as int, 0),
            net_outputs(net).len() == channels,
            forall|k: int|
                0 <= k < channels ==> #[trigger] net_outputs(net)[k] == if k < c {
                    g.outputs[k]
                } else {
                    None
                },
        decreases channels - c,
    {
        if let Some(p) = graph.output_source(c) {
            let ghost prior = net;
            proof {
                assert(g.slot_ok(g.outputs[c as int]));
                lemma_one_place(net, ids@, n as int, p.node as int);
            }
            net_connect_output(&mut net, ids[p.node], p.port, c);
            proof {
                assert(is_at(prior, ids@[p.node as int], p.node as int));
                assert(Port { node: p.node as int as usize, port: p.port } == p);
            }
        }
        c += 1;
    }
    proof {
        assert(net_outputs(net) =~= g.outputs);
        assert forall|k: int| 0 <= k < g.nodes.len() implies (#[trigger] net_nodes(net)[k]).sources
            == g.nodes[k].sources by {
            assert(net_nodes(net)[k].sources =~= g.nodes[k].sources);
        }
    }
    Ok(net)
}

} // verus!
