//! Which background tasks the paused registry runs.

use vstd::prelude::*;

verus! {

/// Where the paused registry is kept.
#[derive(Debug, Clone, Copy, PartialEq, Eq, Structural)]
pub enum PausedRegistryBackendKind {
    /// On the node alone.
    Local,
    /// In PostgreSQL.
    Postgres,
}

/// The background tasks of one replica, by how they shut down.
#[derive(Debug, Clone, Copy, PartialEq, Eq, Structural)]
pub struct TaskPlan {
    /// Advisory-lock singleton: reconcile.
    pub reconcile: bool,
    /// Advisory-lock singleton: reclaim.
    pub reclaim: bool,
    /// Per-replica task safe to abort: lease renewal.
    pub renewal: bool,
}

/// Reconcile and reclaim singletons plus optional per-replica renewal.
///
/// Renewal is omitted when no heartbeat roster source is available.
pub fn background_tasks(has_node_registry: bool) -> (r: TaskPlan)
    ensures
        r == (TaskPlan { reconcile: true, reclaim: true, renewal: has_node_registry }),
{
    TaskPlan { reconcile: true, reclaim: true, renewal: has_node_registry }
}

/// The tasks of a deployment: none unless the PostgreSQL backend is selected and has its pool.
pub fn paused_registry_background_tasks(
    backend: PausedRegistryBackendKind,
    has_pool: bool,
    has_node_registry: bool,
) -> (r: TaskPlan)
    ensures
        r == if backend is Postgres && has_pool {
            TaskPlan { reconcile: true, reclaim: true, renewal: has_node_registry }
        } else {
            TaskPlan { reconcile: false, reclaim: false, renewal: false }
        },
{
    if backend == PausedRegistryBackendKind::Postgres && has_pool {
        background_tasks(has_node_registry)
    } else {
        TaskPlan { reconcile: false, reclaim: false, renewal: false }
    }
}

} // verus!
