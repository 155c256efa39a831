//! Handshakes with many nodes at once, and the report of how each went.
//!
//! The caller runs one independent unit of work per node: it connects within
//! the pool's timeout and, once connected, drives a
//! [`BitcoinClient`](crate::client::BitcoinClient) to its end. It hands the
//! result of every unit, in the order of the nodes, to
//! [`BitcoinClientPool::report`], which gives each node its outcome. A
//! failure of one node has no bearing on the outcome of another, and the run
//! as a whole never fails.

use crate::client::BitcoinClientError;
use vstd::prelude::*;

verus! {

/// How the unit of work for one node ended.
#[derive(Clone, Copy, Debug, PartialEq, Eq, Structural)]
pub enum UnitResult {
    /// No connection within the timeout, or the connection was refused; the
    /// handshake was not started.
    ConnectFailed,
    /// The handshake succeeded.
    Completed,
    /// The handshake failed.
    Failed(BitcoinClientError),
    /// The unit itself did not run to its end (it panicked or was cancelled).
    Aborted,
}

/// The outcome reported for one node.
#[derive(Clone, Copy, Debug, PartialEq, Eq, Structural)]
pub enum HandshakeOutcome {
    Completed,
    CommunicationError,
    MessageError,
    ConnectError,
    /// The unit of work for the node did not run to its end.
    TaskFailed,
}

/// The outcome reported for a unit that ended with `u`.
pub open spec fn outcome_spec(u: UnitResult) -> HandshakeOutcome {
    match u {
        UnitResult::ConnectFailed => HandshakeOutcome::ConnectError,
        UnitResult::Completed => HandshakeOutcome::Completed,
        UnitResult::Failed(BitcoinClientError::CommunicationError) => HandshakeOutcome::CommunicationError,
        UnitResult::Failed(BitcoinClientError::MessageError) => HandshakeOutcome::MessageError,
        UnitResult::Aborted => HandshakeOutcome::TaskFailed,
    }
}

impl HandshakeOutcome {
    /// The outcome reported for a unit that ended with `u`.
    pub fn of(u: UnitResult) -> (r: HandshakeOutcome)
        ensures
            r == outcome_spec(u),
    {
        match u {
            UnitResult::ConnectFailed => HandshakeOutcome::ConnectError,
            UnitResult::Completed => HandshakeOutcome::Completed,
            UnitResult::Failed(BitcoinClientError::CommunicationError) => HandshakeOutcome::CommunicationError,
            UnitResult::Failed(BitcoinClientError::MessageError) => HandshakeOutcome::MessageError,
            UnitResult::Aborted => HandshakeOutcome::TaskFailed,
        }
    }

    /// Whether the handshake succeeded.
    pub fn is_success(&self) -> (r: bool)
        ensures
            r == (*self == HandshakeOutcome::Completed),
    {
        *self == HandshakeOutcome::Completed
    }

    /// A sentence that describes the outcome.
    pub fn to_string(&self) -> (r: String)
        ensures
            r@ == match self {
                HandshakeOutcome::Completed => "handshake completed"@,
                HandshakeOutcome::CommunicationError => "communication error: wrong response"@,
                HandshakeOutcome::MessageError => "message error: returned message content is not valid"@,
                HandshakeOutcome::ConnectError => "connect error: failed to initialize TCP stream"@,
                HandshakeOutcome::TaskFailed => "task error: the handshake task did not finish"@,
            },
    {
        match self {
            HandshakeOutcome::Completed => String::from_str("handshake completed"),
            HandshakeOutcome::CommunicationError => String::from_str("communication error: wrong response"),
            HandshakeOutcome::MessageError => String::from_str("message error: returned message content is not valid"),
            HandshakeOutcome::ConnectError => String::from_str("connect error: failed to initialize TCP stream"),
            HandshakeOutcome::TaskFailed => String::from_str("task error: the handshake task did not finish"),
        }
    }
}

/// The outcome of one node's handshake.
#[derive(Clone, Debug)]
pub struct NodeReport {
    /// The node's address, `host:port`.
    pub node: String,
    pub outcome: HandshakeOutcome,
}

/// The outcomes reported for units that ended with `units`, in order.
pub open spec fn outcomes_spec(units: Seq<UnitResult>) -> Seq<HandshakeOutcome> {
    units.map_values(|u: UnitResult| outcome_spec(u))
}

/// The nodes to shake hands with, in order, and the connect timeout.
pub struct BitcoinClientPool {
    nodes: Vec<String>,
    timeout: u64,
}

impl BitcoinClientPool {
    /// A pool over `nodes`, each to be connected within `timeout`
    /// milliseconds.
    pub fn new(nodes: Vec<String>, timeout: u64) -> (r: BitcoinClientPool)
        ensures
            r.nodes_spec() == nodes@.map_values(|s: String| s@),
            r.timeout_spec() == timeout,
    {
        BitcoinClientPool { nodes, timeout }
    }

    /// The addresses of the nodes, in order.
    pub closed spec fn nodes_spec(&self) -> Seq<Seq<char>> {
        self.nodes@.map_values(|s: String| s@)
    }

    /// The connect timeout, in milliseconds.
    pub closed spec fn timeout_spec(&self) -> u64 {
        self.timeout
    }

    /// The addresses of the nodes, in order.
    pub fn nodes(&self) -> (r: &Vec<String>)
        ensures
            r@.map_values(|s: String| s@) == self.nodes_spec(),
    {
        &self.nodes
    }

    /// The connect timeout, in milliseconds.
    pub fn timeout(&self) -> (r: u64)
        ensures
            r == self.timeout_spec(),
    {
        self.timeout
    }

    /// One report per node, in the order of the nodes: node `i` gets the
    /// outcome of `units[i]`, whatever became of the others.
    pub fn report(&self, units: &Vec<UnitResult>) -> (r: Vec<NodeReport>)
        requires
            units@.len() == self.nodes_spec().len(),
        ensures
            r@.len() == units@.len(),
            forall|i: int| 0 <= i < r@.len() ==> (#[trigger] r@[i]).node@ == self.nodes_spec()[i],
            r@.map_values(|n: NodeReport| n.outcome) == outcomes_spec(units@),
    {
        let mut reports: Vec<NodeReport> = Vec::new();
        let mut i: usize = 0;
        while i < units.len()
            invariant
                i <= units@.len(),
                units@.len() == self.nodes@.len(),
                reports@.len() == i,
                forall|j: int| 0 <= j < i ==> (#[trigger] reports@[j]).node@ == self.nodes@[j]@,
                forall|j: int| 0 <= j < i ==> (#[trigger] reports@[j]).outcome == outcome_spec(units@[j]),
            decreases units@.len() - i,
        {
            reports.push(NodeReport { node: self.nodes[i].clone(), outcome: HandshakeOutcome::of(units[i]) });
            i += 1;
        }
        assert(reports@.map_values(|n: NodeReport| n.outcome) =~= outcomes_spec(units@));
        reports
    }
}

/// Fault isolation: what befalls one node changes its own outcome and no
/// other node's.
pub proof fn lemma_fault_isolation(units: Seq<UnitResult>, i: int, u: UnitResult)
    requires
        0 <= i < units.len(),
    ensures
        outcomes_spec(units.update(i, u)) == outcomes_spec(units).update(i, outcome_spec(u)),
        forall|j: int| 0 <= j < units.len() && j != i ==>
            #[trigger] outcomes_spec(units.update(i, u))[j] == outcomes_spec(units)[j],
{
    assert(outcomes_spec(units.update(i, u)) =~= outcomes_spec(units).update(i, outcome_spec(u)));
}

/// A node that could not be connected is reported with `ConnectError`, and
/// every node whose handshake completed is reported with `Completed`.
pub proof fn lemma_outcomes_follow_units(units: Seq<UnitResult>)
    ensures
        outcomes_spec(units).len() == units.len(),
        forall|j: int| 0 <= j < units.len() && units[j] == UnitResult::ConnectFailed ==>
            #[trigger] outcomes_spec(units)[j] == HandshakeOutcome::ConnectError,
        forall|j: int| 0 <= j < units.len() && units[j] == UnitResult::Completed ==>
            #[trigger] outcomes_spec(units)[j] == HandshakeOutcome::Completed,
{
}

} // verus!
