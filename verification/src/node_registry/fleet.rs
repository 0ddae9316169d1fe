//! The one registry read path behind node reads, whichever surface asks.
//!
//! The scheduler's node read and the REST node listing both read through here, so the two cannot
//! diverge in what they saw.

use crate::node_registry::types::ObservedNode;
use crate::text::{same_text, trim, trimmed};
use vstd::prelude::*;
use vstd::string::*;

verus! {

/// What the node registry observes at one instant, over all clusters.
#[derive(Debug)]
pub struct NodeObservations {
    pub nodes: Vec<ObservedNode>,
}

impl Clone for NodeObservations {
    fn clone(&self) -> (r: NodeObservations)
        ensures
            r.nodes@ == self.nodes@,
    {
        let mut nodes: Vec<ObservedNode> = Vec::new();
        let mut i: usize = 0;
        while i < self.nodes.len()
            invariant
                i <= self.nodes@.len(),
                nodes@ == self.nodes@.take(i as int),
            decreases self.nodes@.len() - i,
        {
            nodes.push(self.nodes[i].clone());
            proof {
                assert(self.nodes@.take(i as int + 1) =~= self.nodes@.take(i as int).push(
                    self.nodes@[i as int],
                ));
            }
            i = i + 1;
        }
        proof {
            assert(self.nodes@.take(i as int) =~= self.nodes@);
        }
        NodeObservations { nodes }
    }
}

/// Whether a node is in the cluster; an empty `cluster_id` spans all of them.
pub open spec fn in_cluster(n: ObservedNode, cluster_id: Seq<char>) -> bool {
    cluster_id.len() == 0 || n.cluster_id@ == cluster_id
}

/// The observed nodes of a cluster, in the registry's order.
pub open spec fn cluster_nodes(nodes: Seq<ObservedNode>, cluster_id: Seq<char>) -> Seq<
    ObservedNode,
> {
    nodes.filter(|n: ObservedNode| in_cluster(n, cluster_id))
}

/// Whether `n` is what a read of `node_id` in the cluster addresses.
pub open spec fn addressed(n: ObservedNode, node_id: Seq<char>, cluster_id: Seq<char>) -> bool {
    n.node_id@ == trimmed(node_id) && in_cluster(n, cluster_id)
}

/// The first node that a read addresses; an empty id addresses nothing.
pub open spec fn found_node(
    nodes: Seq<ObservedNode>,
    node_id: Seq<char>,
    cluster_id: Seq<char>,
    k: int,
) -> Option<ObservedNode>
    decreases k,
{
    if k <= 0 || trimmed(node_id).len() == 0 {
        None
    } else {
        match found_node(nodes, node_id, cluster_id, k - 1) {
            Some(n) => Some(n),
            None => if addressed(nodes[k - 1], node_id, cluster_id) {
                Some(nodes[k - 1])
            } else {
                None
            },
        }
    }
}

/// What a read of `node_id` in the cluster finds.
pub open spec fn node_read(nodes: Seq<ObservedNode>, node_id: Seq<char>, cluster_id: Seq<char>) -> Option<
    ObservedNode,
> {
    found_node(nodes, node_id, cluster_id, nodes.len() as int)
}

fn is_in_cluster(n: &ObservedNode, cluster_id: &str) -> (r: bool)
    ensures
        r == in_cluster(*n, cluster_id@),
{
    cluster_id.is_empty() || same_text(n.cluster_id.as_str(), cluster_id)
}

/// Reads every observed node in a cluster; an empty `cluster_id` spans all of them.
pub fn observed_nodes(registry: &NodeObservations, cluster_id: &str) -> (r: Vec<ObservedNode>)
    ensures
        r@ == cluster_nodes(registry.nodes@, cluster_id@),
{
    let ghost pred = |n: ObservedNode| in_cluster(n, cluster_id@);
    let ghost all = registry.nodes@;
    let mut out: Vec<ObservedNode> = Vec::new();
    let mut i: usize = 0;
    proof {
        assert(all.take(0).filter(pred) =~= Seq::<ObservedNode>::empty()) by {
            reveal(Seq::filter);
        }
    }
    while i < registry.nodes.len()
        invariant
            i <= registry.nodes@.len(),
            all == registry.nodes@,
            pred == (|n: ObservedNode| in_cluster(n, cluster_id@)),
            out@ == all.take(i as int).filter(pred),
        decreases registry.nodes@.len() - i,
    {
        let node = &registry.nodes[i];
        proof {
            reveal(Seq::filter);
            assert(all.take(i as int + 1).drop_last() =~= all.take(i as int));
            assert(all.take(i as int + 1).last() == all[i as int]);
        }
        if is_in_cluster(node, cluster_id) {
            out.push(node.clone());
        }
        i = i + 1;
    }
    proof {
        assert(all.take(i as int) =~= all);
    }
    out
}

/// Reads one observed node by its canonical id.
///
/// An empty id addresses nothing, and an id outside `cluster_id` is not observed.
pub fn observed_node(registry: &NodeObservations, node_id: &str, cluster_id: &str) -> (r: Option<
    ObservedNode,
>)
    ensures
        r == node_read(registry.nodes@, node_id@, cluster_id@),
{
    let id = trim(node_id);
    if id.as_str().is_empty() {
        return None;
    }
    let ghost all = registry.nodes@;
    let mut i: usize = 0;
    while i < registry.nodes.len()
        invariant
            i <= registry.nodes@.len(),
            all == registry.nodes@,
            id@ == trimmed(node_id@),
            id@.len() > 0,
            found_node(all, node_id@, cluster_id@, i as int) is None,
        decreases registry.nodes@.len() - i,
    {
        let node = &registry.nodes[i];
        if node.node_id == id && is_in_cluster(node, cluster_id) {
            proof {
                found_is_first(all, node_id@, cluster_id@, i as int + 1, all.len() as int);
            }
            return Some(node.clone());
        }
        i = i + 1;
    }
    None
}

proof fn found_is_first(
    nodes: Seq<ObservedNode>,
    node_id: Seq<char>,
    cluster_id: Seq<char>,
    k: int,
    n: int,
)
    requires
        0 <= k <= n,
    ensures
        found_node(nodes, node_id, cluster_id, k) is Some ==> found_node(
            nodes,
            node_id,
            cluster_id,
            n,
        ) == found_node(nodes, node_id, cluster_id, k),
    decreases n - k,
{
    if k < n {
        found_is_first(nodes, node_id, cluster_id, k + 1, n);
    }
}

/// Whether this process can answer node reads for the whole cluster.
///
/// The verdict travels with the value: a caller cannot take a node list out of
/// this handle without also being told whose list it is.
#[derive(Debug)]
pub struct NodeFleetView {
    /// What the cluster's registry observes, where this process holds it.
    pub registry: Option<NodeObservations>,
    /// The port this process dials a cluster peer's node service on. The
    /// registry advertises each node by its user-facing HTTP address, so a
    /// dialing caller must substitute this port rather than use that address
    /// as handed out. Meaningful only alongside a registry.
    pub node_service_port: u16,
}

/// The answer to a fleet-wide node list.
#[derive(Debug)]
pub enum FleetNodes {
    /// This process observes the cluster; these are its nodes.
    Cluster(Vec<ObservedNode>),
    /// This process observes no cluster, so only its own report exists.
    SelfReport,
}

/// The answer to a single-node read.
#[derive(Debug)]
pub enum FleetNode {
    /// The cluster view holds this node. Its address is the registry-advertised
    /// user-facing one; a caller that dials the node's own service substitutes
    /// `node_service_port`, which rides along so the two cannot be separated.
    Observed { node: ObservedNode, node_service_port: u16 },
    /// The cluster view is authoritative and does not hold this node.
    Absent,
    /// This process observes no cluster, so only its own report exists.
    SelfReport,
}

impl Clone for NodeFleetView {
    fn clone(&self) -> (r: NodeFleetView)
        ensures
            r.node_service_port == self.node_service_port,
            match (r.registry, self.registry) {
                (Some(a), Some(b)) => a.nodes@ == b.nodes@,
                (None, None) => true,
                _ => false,
            },
    {
        let registry = match &self.registry {
            Some(registry) => Some(registry.clone()),
            None => None,
        };
        NodeFleetView { registry, node_service_port: self.node_service_port }
    }
}

impl NodeFleetView {
    /// A process that observes no cluster, such as a node reporting itself.
    pub fn self_report() -> (r: NodeFleetView)
        ensures
            r.registry is None,
            r.node_service_port == 0,
    {
        NodeFleetView { registry: None, node_service_port: 0 }
    }

    /// A process holding the cluster's node registry, dialing each peer's node
    /// service on `node_service_port`.
    pub fn cluster(registry: NodeObservations, node_service_port: u16) -> (r: NodeFleetView)
        ensures
            r.registry == Some(registry),
            r.node_service_port == node_service_port,
    {
        NodeFleetView { registry: Some(registry), node_service_port }
    }

    /// Lists the cluster's nodes, or says this process has no such list.
    pub fn list(&self, cluster_id: &str) -> (r: FleetNodes)
        ensures
            match self.registry {
                Some(registry) => r is Cluster && r->Cluster_0@ == cluster_nodes(
                    registry.nodes@,
                    cluster_id@,
                ),
                None => r is SelfReport,
            },
    {
        match &self.registry {
            Some(registry) => FleetNodes::Cluster(observed_nodes(registry, cluster_id)),
            None => FleetNodes::SelfReport,
        }
    }

    /// Reads one of the cluster's nodes, or says this process has no such view.
    pub fn get(&self, node_id: &str, cluster_id: &str) -> (r: FleetNode)
        ensures
            match self.registry {
                Some(registry) => match node_read(registry.nodes@, node_id@, cluster_id@) {
                    Some(node) => r == (FleetNode::Observed {
                        node,
                        node_service_port: self.node_service_port,
                    }),
                    None => r is Absent,
                },
                None => r is SelfReport,
            },
    {
        match &self.registry {
            Some(registry) => match observed_node(registry, node_id, cluster_id) {
                Some(node) => FleetNode::Observed {
                    node,
                    node_service_port: self.node_service_port,
                },
                None => FleetNode::Absent,
            },
            None => FleetNode::SelfReport,
        }
    }
}

/// A listing and a single read cannot diverge: a read of an id finds a node that the listing of
/// the same cluster holds, and it finds one whenever the listing holds one of that id.
pub proof fn reads_and_listings_agree(
    nodes: Seq<ObservedNode>,
    node_id: Seq<char>,
    cluster_id: Seq<char>,
)
    requires
        trimmed(node_id).len() > 0,
    ensures
        match node_read(nodes, node_id, cluster_id) {
            Some(n) => cluster_nodes(nodes, cluster_id).contains(n) && n.node_id@ == trimmed(
                node_id,
            ),
            None => forall|i: int|
                0 <= i < cluster_nodes(nodes, cluster_id).len() ==> (#[trigger] cluster_nodes(
                    nodes,
                    cluster_id,
                )[i]).node_id@ != trimmed(node_id),
        },
{
    found_or_absent(nodes, node_id, cluster_id, nodes.len() as int);
    let pred = |n: ObservedNode| in_cluster(n, cluster_id);
    let listed = cluster_nodes(nodes, cluster_id);
    match node_read(nodes, node_id, cluster_id) {
        Some(n) => {
            let i = choose|i: int| 0 <= i < nodes.len() && nodes[i] == n;
            assert(pred(nodes[i]));
            listed_if_in_cluster(nodes, pred, i);
        },
        None => {
            assert forall|i: int| 0 <= i < listed.len() implies (#[trigger] listed[i]).node_id@
                != trimmed(node_id) by {
                filtered_comes_from(nodes, pred, i);
                let j = choose|j: int| 0 <= j < nodes.len() && nodes[j] == listed[i];
                assert(!addressed(nodes[j], node_id, cluster_id));
                assert(pred(listed[i]));
            }
        },
    }
}

proof fn listed_if_in_cluster(
    nodes: Seq<ObservedNode>,
    pred: spec_fn(ObservedNode) -> bool,
    i: int,
)
    requires
        0 <= i < nodes.len(),
        pred(nodes[i]),
    ensures
        nodes.filter(pred).contains(nodes[i]),
    decreases nodes.len(),
{
    reveal(Seq::filter);
    let rest = nodes.drop_last();
    if i < rest.len() {
        listed_if_in_cluster(rest, pred, i);
        let f = rest.filter(pred);
        let p = choose|p: int| 0 <= p < f.len() && f[p] == nodes[i];
        assert(nodes.filter(pred)[p] == nodes[i]);
    } else {
        let f = nodes.filter(pred);
        assert(f[f.len() - 1] == nodes[i]);
    }
}

proof fn filtered_comes_from(nodes: Seq<ObservedNode>, pred: spec_fn(ObservedNode) -> bool, i: int)
    requires
        0 <= i < nodes.filter(pred).len(),
    ensures
        exists|j: int| 0 <= j < nodes.len() && nodes[j] == nodes.filter(pred)[i],
        pred(nodes.filter(pred)[i]),
    decreases nodes.len(),
{
    reveal(Seq::filter);
    if nodes.len() > 0 {
        let rest = nodes.drop_last();
        if i < rest.filter(pred).len() {
            filtered_comes_from(rest, pred, i);
            let j = choose|j: int| 0 <= j < rest.len() && rest[j] == rest.filter(pred)[i];
            assert(nodes[j] == nodes.filter(pred)[i]);
        } else {
            assert(nodes[nodes.len() - 1] == nodes.filter(pred)[i]);
        }
    }
}

proof fn found_or_absent(
    nodes: Seq<ObservedNode>,
    node_id: Seq<char>,
    cluster_id: Seq<char>,
    k: int,
)
    requires
        0 <= k <= nodes.len(),
        trimmed(node_id).len() > 0,
    ensures
        match found_node(nodes, node_id, cluster_id, k) {
            Some(n) => addressed(n, node_id, cluster_id) && exists|i: int|
                0 <= i < nodes.len() && nodes[i] == n,
            None => forall|i: int|
                0 <= i < k ==> !addressed(#[trigger] nodes[i], node_id, cluster_id),
        },
    decreases k,
{
    if k > 0 {
        found_or_absent(nodes, node_id, cluster_id, k - 1);
    }
}

/// A node is in a cluster where it names it, and every node is in the cluster without a name. A
/// listing of no node is empty; one more node is listed last where it is in the cluster, and
/// changes nothing where it is not.
pub proof fn listings_hold_the_cluster(
    nodes: Seq<ObservedNode>,
    node: ObservedNode,
    cluster_id: Seq<char>,
)
    ensures
        cluster_nodes(Seq::empty(), cluster_id).len() == 0,
        cluster_id.len() == 0 ==> cluster_nodes(nodes.push(node), cluster_id) == cluster_nodes(
            nodes,
            cluster_id,
        ).push(node),
        node.cluster_id@ == cluster_id ==> cluster_nodes(nodes.push(node), cluster_id)
            == cluster_nodes(nodes, cluster_id).push(node),
        cluster_id.len() > 0 && node.cluster_id@ != cluster_id ==> cluster_nodes(
            nodes.push(node),
            cluster_id,
        ) == cluster_nodes(nodes, cluster_id),
{
    reveal(Seq::filter);
    assert(nodes.push(node).drop_last() =~= nodes);
}

/// A read finds the first node of that identity in the cluster, white space around the identity
/// aside, and it finds nothing where no node of the cluster has it or the identity is empty.
pub proof fn reads_find_the_first_of_that_identity(
    nodes: Seq<ObservedNode>,
    node_id: Seq<char>,
    cluster_id: Seq<char>,
    i: int,
)
    ensures
        trimmed(node_id).len() == 0 ==> node_read(nodes, node_id, cluster_id) is None,
        trimmed(node_id).len() > 0 && 0 <= i < nodes.len() && nodes[i].node_id@ == trimmed(node_id)
            && (cluster_id.len() == 0 || nodes[i].cluster_id@ == cluster_id) && (forall|j: int|
            0 <= j < i ==> (#[trigger] nodes[j]).node_id@ != trimmed(node_id) || (cluster_id.len()
                > 0 && nodes[j].cluster_id@ != cluster_id)) ==> node_read(nodes, node_id, cluster_id)
            == Some(nodes[i]),
        (forall|j: int|
            0 <= j < nodes.len() ==> (#[trigger] nodes[j]).node_id@ != trimmed(node_id) || (
            cluster_id.len() > 0 && nodes[j].cluster_id@ != cluster_id)) ==> node_read(
            nodes,
            node_id,
            cluster_id,
        ) is None,
{
    if trimmed(node_id).len() > 0 {
        found_or_absent(nodes, node_id, cluster_id, nodes.len() as int);
        if 0 <= i < nodes.len() {
            found_or_absent(nodes, node_id, cluster_id, i);
            found_is_first(nodes, node_id, cluster_id, i + 1, nodes.len() as int);
            if forall|j: int|
                0 <= j < i ==> (#[trigger] nodes[j]).node_id@ != trimmed(node_id) || (
                cluster_id.len() > 0 && nodes[j].cluster_id@ != cluster_id) {
                nothing_addressed(nodes, node_id, cluster_id, i);
            }
        }
    }
}

proof fn nothing_addressed(
    nodes: Seq<ObservedNode>,
    node_id: Seq<char>,
    cluster_id: Seq<char>,
    k: int,
)
    requires
        0 <= k <= nodes.len(),
        forall|j: int| 0 <= j < k ==> !addressed(#[trigger] nodes[j], node_id, cluster_id),
    ensures
        found_node(nodes, node_id, cluster_id, k) is None,
    decreases k,
{
    if k > 0 {
        nothing_addressed(nodes, node_id, cluster_id, k - 1);
    }
}

} // verus!
