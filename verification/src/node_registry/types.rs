//! Nodes and what they report, as plain values.

use crate::time::{Span, Timestamp};
use vstd::prelude::*;
use vstd::string::*;

verus! {

/// A discovered node.
#[derive(Debug)]
pub struct Node {
    pub id: String,
    pub endpoint: String,
    pub pod_name: String,
}

impl Clone for Node {
    fn clone(&self) -> (r: Node)
        ensures
            r == *self,
    {
        Node {
            id: self.id.clone(),
            endpoint: self.endpoint.clone(),
            pod_name: self.pod_name.clone(),
        }
    }
}

/// A placement candidate.
#[derive(Debug)]
pub struct RichNode {
    pub node: Node,
}

impl RichNode {
    /// A candidate for `node`.
    pub fn new(node: Node) -> (r: RichNode)
        ensures
            r.node == node,
    {
        RichNode { node }
    }
}

impl Clone for RichNode {
    fn clone(&self) -> (r: RichNode)
        ensures
            r == *self,
    {
        RichNode { node: self.node.clone() }
    }
}

/// The status a node reports or the registry derives.
#[derive(Debug, Clone, Copy, PartialEq, Eq, Structural)]
pub enum NodeStatus {
    Unspecified,
    Ready,
    Connecting,
    Unhealthy,
    Lingering,
    Draining,
}

/// What a node reports of its egress broker.
#[derive(Debug, Clone, Copy, PartialEq, Eq, Structural)]
pub enum EgressBrokerState {
    Unspecified,
    Disabled,
    Embedded,
    LocalOk,
    LocalUnreachable,
}

/// A node's last report.
#[derive(Debug, Clone, Copy, PartialEq, Eq, Structural)]
pub struct NodeSnapshot {
    pub status: NodeStatus,
    pub egress_broker: EgressBrokerState,
}

/// A node as the registry observed it.
#[derive(Debug)]
pub struct ObservedNode {
    pub node_id: String,
    pub cluster_id: String,
    pub endpoint: String,
    pub snapshot: Option<NodeSnapshot>,
}

impl Clone for ObservedNode {
    fn clone(&self) -> (r: ObservedNode)
        ensures
            r == *self,
    {
        ObservedNode {
            node_id: self.node_id.clone(),
            cluster_id: self.cluster_id.clone(),
            endpoint: self.endpoint.clone(),
            snapshot: self.snapshot,
        }
    }
}

/// A sandbox that a node reports in its heartbeat.
#[derive(Debug)]
pub struct RosterEntry {
    pub sandbox_id: String,
    pub execution_id: String,
    pub projection_ttl: Span,
    pub paused: bool,
}

/// What a node reported last, and when.
#[derive(Debug)]
pub struct Roster {
    pub node_id: String,
    pub entries: Vec<RosterEntry>,
    pub last_seen: Option<Timestamp>,
}

/// What a placement request says of a sandbox that does not run yet.
#[derive(Debug)]
pub struct NewSandboxHint {
    pub cpu_count: Option<u32>,
    pub memory_mib: Option<u64>,
    pub preferred_node_id: String,
    pub excluded_node_ids: Vec<String>,
    pub requires_egress_broker: bool,
}

/// What a placement request says of the sandbox to place.
#[derive(Debug)]
pub enum ScheduleRequestHint {
    /// The sandbox does not run yet.
    NewSandbox(NewSandboxHint),
    /// The request says nothing that placement reads.
    Unspecified,
}

} // verus!
