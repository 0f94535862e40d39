//! The fixed graph of synthesis nodes that the audio host must build.
//!
//! primary → output gain → { master gain → destination, analyser };
//! modulator → depth gain → the primary oscillator's frequency.
use vstd::prelude::*;

verus! {

/// One of the six nodes that a synthesiser owns.
#[derive(Clone, Copy, Debug, PartialEq, Eq, Structural)]
pub enum NodeId {
    /// The oscillator that sounds at the fundamental frequency.
    Primary,
    /// The oscillator that modulates the primary oscillator's frequency.
    Modulator,
    /// The gain on the modulator: how far it moves the primary frequency.
    ModulatorDepth,
    /// The primary oscillator's volume.
    Output,
    /// The node whose time-domain samples can be read back.
    Analyser,
    /// The overall volume before the host's output.
    Master,
}

/// Where a connection ends.
#[derive(Clone, Copy, Debug, PartialEq, Eq, Structural)]
pub enum Sink {
    /// The audio input of a node.
    Input(NodeId),
    /// The frequency parameter of an oscillator node.
    FrequencyOf(NodeId),
    /// The host's audio output.
    Destination,
}

/// A connection from a node's output to a sink.
#[derive(Clone, Copy, Debug, PartialEq, Eq, Structural)]
pub struct Connection {
    pub from: NodeId,
    pub to: Sink,
}

/// The six nodes, in the order in which the host creates them.
pub open spec fn spec_nodes() -> Seq<NodeId> {
    seq![
        NodeId::Primary,
        NodeId::Modulator,
        NodeId::ModulatorDepth,
        NodeId::Output,
        NodeId::Analyser,
        NodeId::Master,
    ]
}

/// The wiring, in the order in which the host makes the connections.
pub open spec fn spec_connections() -> Seq<Connection> {
    seq![
        Connection { from: NodeId::Primary, to: Sink::Input(NodeId::Output) },
        Connection { from: NodeId::Modulator, to: Sink::Input(NodeId::ModulatorDepth) },
        Connection { from: NodeId::ModulatorDepth, to: Sink::FrequencyOf(NodeId::Primary) },
        Connection { from: NodeId::Output, to: Sink::Input(NodeId::Master) },
        Connection { from: NodeId::Output, to: Sink::Input(NodeId::Analyser) },
        Connection { from: NodeId::Master, to: Sink::Destination },
    ]
}

/// How far down the signal chain a node stands.
pub open spec fn stage(n: NodeId) -> nat {
    match n {
        NodeId::Modulator => 0,
        NodeId::ModulatorDepth => 1,
        NodeId::Primary => 2,
        NodeId::Output => 3,
        NodeId::Analyser => 4,
        NodeId::Master => 4,
    }
}

/// The stage of a sink: a parameter stands with its node, the output after all.
pub open spec fn sink_stage(s: Sink) -> nat {
    match s {
        Sink::Input(n) => stage(n),
        Sink::FrequencyOf(n) => stage(n),
        Sink::Destination => 5,
    }
}

/// The nodes that a synthesiser creates.
pub fn nodes() -> (r: Vec<NodeId>)
    ensures
        r@ == spec_nodes(),
{
    let r = vec![
        NodeId::Primary,
        NodeId::Modulator,
        NodeId::ModulatorDepth,
        NodeId::Output,
        NodeId::Analyser,
        NodeId::Master,
    ];
    assert(r@ =~= spec_nodes());
    r
}

/// The connections that a synthesiser makes between its nodes.
pub fn connections() -> (r: Vec<Connection>)
    ensures
        r@ == spec_connections(),
{
    let r = vec![
        Connection { from: NodeId::Primary, to: Sink::Input(NodeId::Output) },
        Connection { from: NodeId::Modulator, to: Sink::Input(NodeId::ModulatorDepth) },
        Connection { from: NodeId::ModulatorDepth, to: Sink::FrequencyOf(NodeId::Primary) },
        Connection { from: NodeId::Output, to: Sink::Input(NodeId::Master) },
        Connection { from: NodeId::Output, to: Sink::Input(NodeId::Analyser) },
        Connection { from: NodeId::Master, to: Sink::Destination },
    ];
    assert(r@ =~= spec_connections());
    r
}

/// The node set has six distinct members and holds every node.
pub proof fn lemma_six_distinct_nodes()
    ensures
        spec_nodes().len() == 6,
        spec_nodes().no_duplicates(),
        forall|n: NodeId| #[trigger] spec_nodes().contains(n),
{
    let s = spec_nodes();
    assert forall|n: NodeId| #[trigger] s.contains(n) by {
        match n {
            NodeId::Primary => assert(s[0] == n),
            NodeId::Modulator => assert(s[1] == n),
            NodeId::ModulatorDepth => assert(s[2] == n),
            NodeId::Output => assert(s[3] == n),
            NodeId::Analyser => assert(s[4] == n),
            NodeId::Master => assert(s[5] == n),
        }
    }
}

/// Every connection leads strictly further down the chain, so the graph has
/// no cycle; the master gain feeds the host output.
pub proof fn lemma_wiring_acyclic()
    ensures
        forall|i: int|
            0 <= i < spec_connections().len() ==> stage(spec_connections()[i].from) < sink_stage(
                #[trigger] spec_connections()[i].to,
            ),
        spec_connections().contains(
            Connection { from: NodeId::Master, to: Sink::Destination },
        ),
{
    assert(spec_connections()[5] == Connection { from: NodeId::Master, to: Sink::Destination });
}

} // verus!
