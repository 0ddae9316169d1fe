//! Whether the cluster still routes traffic to a sandbox's runtime.
//!
//! A record saying `Running` and a handle held in this process are both this
//! replica's memory. The routing binding is the cluster's answer, and it is the
//! only one that survives the node that held the sandbox going away.

use crate::ids::{ExecutionId, SandboxId};
use crate::node_client::placement::PlacementError;
use vstd::prelude::*;

verus! {

pub trait RuntimeRouting {
    /// Whether the routing source may give this answer.
    spec fn may_answer(&self, sandbox_id: SandboxId, r: Result<bool, PlacementError>) -> bool;

    /// Whether the routing source may answer a retirement so.
    spec fn may_forget(
        &self,
        sandbox_id: SandboxId,
        execution_id: ExecutionId,
        r: Result<(), PlacementError>,
    ) -> bool;

    /// `Ok(false)` is a verdict that nothing routes to this sandbox any more.
    /// `Err` is unknown and must never be read as absence.
    fn is_routed(&self, sandbox_id: SandboxId) -> (r: Result<bool, PlacementError>)
        ensures
            self.may_answer(sandbox_id, r),
    ;

    /// Retires the routing answer for one incarnation, so that no request is
    /// routed at a runtime this teardown is about to remove.
    ///
    /// Fenced on `execution_id`: an answer naming another incarnation belongs
    /// to that incarnation and is left alone.
    fn forget(&self, sandbox_id: SandboxId, execution_id: ExecutionId) -> (r: Result<
        (),
        PlacementError,
    >)
        ensures
            self.may_forget(sandbox_id, execution_id, r),
    ;
}

} // verus!
