//! What placement and routing ask the node registry.

use crate::node_registry::types::Node;
use crate::text::same_text;
use vstd::prelude::*;
use vstd::string::*;

verus! {

/// The nodes that discovery lists.
pub trait NodeRegistry {
    /// The node that an identity, canonical or an alias, resolves to.
    spec fn resolves(&self, node_id: Seq<char>) -> Option<Node>;

    fn resolve(&self, node_id: &str) -> (r: Option<Node>)
        ensures
            r == self.resolves(node_id@),
    ;
}

/// A fixed list of nodes, each resolved by its canonical identity alone.
#[derive(Debug)]
pub struct ListedNodes {
    pub nodes: Vec<Node>,
}

/// The first of the nodes from `k` on with this identity.
pub open spec fn first_with_id(nodes: Seq<Node>, node_id: Seq<char>, k: int) -> Option<Node>
    decreases nodes.len() - k,
{
    if k >= nodes.len() {
        None
    } else if nodes[k].id@ == node_id {
        Some(nodes[k])
    } else {
        first_with_id(nodes, node_id, k + 1)
    }
}

impl NodeRegistry for ListedNodes {
    open spec fn resolves(&self, node_id: Seq<char>) -> Option<Node> {
        first_with_id(self.nodes@, node_id, 0)
    }

    fn resolve(&self, node_id: &str) -> (r: Option<Node>) {
        let mut i: usize = 0;
        while i < self.nodes.len()
            invariant
                i <= self.nodes@.len(),
                first_with_id(self.nodes@, node_id@, 0) == first_with_id(
                    self.nodes@,
                    node_id@,
                    i as int,
                ),
            decreases self.nodes@.len() - i,
        {
            if same_text(self.nodes[i].id.as_str(), node_id) {
                return Some(self.nodes[i].clone());
            }
            i = i + 1;
        }
        None
    }
}

} // verus!
