//! Selects nodes for new sandboxes, resolves existing sandbox holders, and records
//! completed placement. Existing placement is distinct because local captures may be
//! pinned to exactly one node.

use crate::ids::{ExecutionId, SandboxId};
use crate::node_registry::status::Status;
use crate::orchestrator::runtime_routing::RuntimeRouting;
use std::sync::Arc;
use vstd::prelude::*;
use vstd::string::*;

verus! {

/// Node identity plus advertised and sandbox-service addresses.
#[derive(Debug)]
pub struct NodeEndpoint {
    pub node_id: String,
    /// Sandbox-service URI dialed by this client.
    pub endpoint: String,
    /// Original discovery address used for placement records and cluster routing.
    pub advertised_endpoint: String,
}

impl Clone for NodeEndpoint {
    fn clone(&self) -> (r: NodeEndpoint)
        ensures
            r == *self,
    {
        NodeEndpoint {
            node_id: self.node_id.clone(),
            endpoint: self.endpoint.clone(),
            advertised_endpoint: self.advertised_endpoint.clone(),
        }
    }
}

impl NodeEndpoint {
    /// Constructs a node whose dial and advertised addresses are identical.
    pub fn same_address(node_id: &str, endpoint: &str) -> (r: NodeEndpoint)
        ensures
            r.node_id@ == node_id@,
            r.endpoint@ == endpoint@,
            r.advertised_endpoint@ == endpoint@,
    {
        NodeEndpoint {
            node_id: node_id.to_owned(),
            endpoint: endpoint.to_owned(),
            advertised_endpoint: endpoint.to_owned(),
        }
    }
}

/// Discovery-backed membership for a node identity already held by the caller.
#[derive(Clone, Copy, Debug, PartialEq, Eq, Structural)]
pub enum NodeMembership {
    /// Discovery still lists the node.
    Present,
    /// Discovery no longer lists the node.
    Gone,
}

/// Node capabilities a launch depends on.
#[derive(Clone, Copy, Debug, PartialEq, Eq, Structural)]
pub struct PlacementNeeds {
    /// The sandbox declares network rules and must land on a node whose
    /// heartbeat reports a usable egress broker.
    pub egress_broker: bool,
}

impl Default for PlacementNeeds {
    fn default() -> (r: PlacementNeeds)
        ensures
            !r.egress_broker,
    {
        PlacementNeeds { egress_broker: false }
    }
}

/// Placement found nodes but none with a capability the launch needs. The
/// API answers 503 rather than 500 when this is in the error chain.
#[derive(Clone, Copy, Debug, PartialEq, Eq, Structural)]
pub enum PlacementRefused {
    NoEgressBrokerNode,
}

/// What a placement without a usable egress broker says.
pub const NO_EGRESS_BROKER: &'static str = "no node reports a usable egress broker; sandboxes with network rules cannot be placed";

impl PlacementRefused {
    /// The refusal's text.
    pub fn message(&self) -> (r: &'static str)
        ensures
            r@ == NO_EGRESS_BROKER@,
            r@
                == "no node reports a usable egress broker; sandboxes with network rules cannot be placed"@,
    {
        NO_EGRESS_BROKER
    }
}

/// What stands behind a placement error.
#[derive(Debug)]
pub enum PlacementCause {
    /// Nothing that a caller distinguishes.
    Other,
    /// No node has what the launch needs.
    Refused(PlacementRefused),
    /// Another launch holds the sandbox id: the caller waits for it.
    LaunchHeldElsewhere { sandbox_id: SandboxId },
    /// The scheduler's status: its code separates a verdict from a scheduler that could not answer.
    Status(Status),
}

/// Why a placement operation failed.
#[derive(Debug)]
pub struct PlacementError {
    pub message: String,
    pub cause: PlacementCause,
}

/// What a sandbox is given of its node.
#[derive(Clone, Copy, Debug, PartialEq, Eq, Structural)]
pub struct SandboxResources {
    pub cpu_count: u32,
    pub memory_mib: u32,
    pub disk_size_mib: u32,
}

pub trait NodePlacement: Sized {
    /// Whether a lookup of an existing sandbox may give this answer.
    spec fn may_locate(
        &self,
        sandbox_id: SandboxId,
        r: Result<Option<NodeEndpoint>, PlacementError>,
    ) -> bool;

    /// Whether the retirement of a placement record may be answered so.
    spec fn may_retire(
        &self,
        sandbox_id: SandboxId,
        execution_id: ExecutionId,
        r: Result<(), PlacementError>,
    ) -> bool;

    /// Whether a new sandbox may be placed so.
    spec fn may_place(
        &self,
        sandbox_id: SandboxId,
        resources: SandboxResources,
        preferred_node_id: Option<&str>,
        excluded_node_ids: Seq<String>,
        r: Result<NodeEndpoint, PlacementError>,
    ) -> bool;

    /// Selects a node for a new sandbox.
    ///
    /// `preferred_node_id` is honoured when that node is schedulable and
    /// silently ignored otherwise: it is where a paused sandbox's bytes were
    /// last warm, never where the sandbox must run. `excluded_node_ids` are
    /// nodes that refused this launch already; none of them is chosen, and
    /// an implementation that cannot avoid them returns one anyway, which the
    /// caller reads as the cluster having nowhere else.
    fn place_new(
        &self,
        sandbox_id: SandboxId,
        resources: SandboxResources,
        preferred_node_id: Option<&str>,
        excluded_node_ids: &[String],
    ) -> (r: Result<NodeEndpoint, PlacementError>)
        ensures
            self.may_place(
                sandbox_id,
                resources,
                preferred_node_id,
                excluded_node_ids@,
                r,
            ),
    ;

    /// `place_new` with what the sandbox needs from its node. The default
    /// ignores `needs`; a placement source that knows node capabilities
    /// overrides it and refuses with [`PlacementRefused`] when no node fits.
    fn place_new_with(
        &self,
        sandbox_id: SandboxId,
        resources: SandboxResources,
        preferred_node_id: Option<&str>,
        excluded_node_ids: &[String],
        needs: PlacementNeeds,
    ) -> (r: Result<NodeEndpoint, PlacementError>)
        default_ensures
            self.may_place(
                sandbox_id,
                resources,
                preferred_node_id,
                excluded_node_ids@,
                r,
            ),
    {
        let _ = needs;
        self.place_new(sandbox_id, resources, preferred_node_id, excluded_node_ids)
    }

    /// Locates the node holding an existing sandbox.
    ///
    /// `Ok(None)` means a complete lookup found no record; `Err` means lookup failed.
    fn place_existing(&self, sandbox_id: SandboxId) -> (r: Result<
        Option<NodeEndpoint>,
        PlacementError,
    >)
        ensures
            self.may_locate(sandbox_id, r),
    ;

    /// Resolves the current address of an already-selected node identity.
    fn resolve_node(&self, node_id: &str) -> Result<NodeEndpoint, PlacementError>;

    /// Reports whether discovery still lists an already-selected node.
    ///
    /// Callers must treat errors as unknown, never as [`NodeMembership::Gone`].
    fn node_membership(&self, node_id: &str) -> Result<NodeMembership, PlacementError>;

    /// Best-effort records a completed placement; heartbeats repair failed writes.
    ///
    /// `projection_ttl_secs` is the sandbox's remaining lifetime budget, the
    /// same one its heartbeats carry; zero delegates to the store's default.
    fn record_placement(
        &self,
        sandbox_id: SandboxId,
        execution_id: ExecutionId,
        node: &NodeEndpoint,
        projection_ttl_secs: u32,
    ) -> Result<(), PlacementError>;

    /// Records the chosen node before the runtime is asked for, so that no runtime
    /// exists that a complete lookup cannot find.
    ///
    /// Failing this must fail the launch: a lookup that finds nothing is read as a
    /// verdict, and a runtime started without a record would be reaped as an orphan.
    /// The reservation expires on its own, which is what bounds a caller that dies
    /// between here and [`record_placement`](Self::record_placement).
    fn reserve_placement(
        &self,
        sandbox_id: SandboxId,
        execution_id: ExecutionId,
        node: &NodeEndpoint,
    ) -> Result<(), PlacementError>;

    /// Withdraws a reservation whose launch failed, leaving a confirmed placement
    /// of the same incarnation alone.
    fn release_placement_reservation(
        &self,
        sandbox_id: SandboxId,
        execution_id: ExecutionId,
    ) -> Result<(), PlacementError>;

    /// Takes the sandbox id for this launch before any node is chosen.
    ///
    /// A launch that meets one already holding the id fails with
    /// [`PlacementCause::LaunchHeldElsewhere`], which
    /// the caller reads as "wait for that launch" rather than "this failed".
    /// The caller holds this across the whole launch, so an implementation
    /// that claims without writing says the id cannot be launched twice for
    /// some other reason, and has to say which.
    fn reserve_launch(&self, sandbox_id: SandboxId, execution_id: ExecutionId) -> Result<
        (),
        PlacementError,
    >;

    /// Gives the sandbox id back once the launch has settled, either way.
    ///
    /// The record the launch wrote is what fences the id from here on, so
    /// holding the reservation past that only delays the next launch.
    fn release_launch(&self, sandbox_id: SandboxId, execution_id: ExecutionId) -> Result<
        (),
        PlacementError,
    >;

    /// Retires the placement record of an incarnation being torn down, so no
    /// lookup routes at a runtime that is going away.
    ///
    /// Fenced on `execution_id`: a record naming another incarnation is left
    /// alone.
    fn forget_placement(&self, sandbox_id: SandboxId, execution_id: ExecutionId) -> (r: Result<
        (),
        PlacementError,
    >)
        ensures
            self.may_retire(sandbox_id, execution_id, r),
    ;
}

/// The placement source's binding answers whether anything still routes to a
/// sandbox's runtime.
pub struct PlacementRuntimeRouting<P>(pub Arc<P>);

/// The routing answer that a lookup gives: whether it found a node. A lookup that failed is
/// unknown.
pub open spec fn routing_of(located: Result<Option<NodeEndpoint>, PlacementError>) -> Result<
    bool,
    PlacementError,
> {
    match located {
        Ok(node) => Ok(node is Some),
        Err(e) => Err(e),
    }
}

/// The routing answer that a lookup gives.
pub fn routing_answer(located: Result<Option<NodeEndpoint>, PlacementError>) -> (r: Result<
    bool,
    PlacementError,
>)
    ensures
        r == routing_of(located),
{
    match located {
        Ok(node) => Ok(node.is_some()),
        Err(e) => Err(e),
    }
}

impl<P: NodePlacement> PlacementRuntimeRouting<P> {
    /// Routing answered by `placement`, to be shared.
    pub fn shared(placement: Arc<P>) -> (r: Arc<PlacementRuntimeRouting<P>>)
        ensures
            r.0 == placement,
    {
        Arc::new(PlacementRuntimeRouting(placement))
    }
}

impl<P: NodePlacement> RuntimeRouting for PlacementRuntimeRouting<P> {
    /// What the placement source's lookup says.
    open spec fn may_answer(&self, sandbox_id: SandboxId, r: Result<bool, PlacementError>) -> bool {
        exists|located: Result<Option<NodeEndpoint>, PlacementError>| #[trigger]
            self.0.may_locate(sandbox_id, located) && r == routing_of(located)
    }

    /// What the placement source's retirement says.
    open spec fn may_forget(
        &self,
        sandbox_id: SandboxId,
        execution_id: ExecutionId,
        r: Result<(), PlacementError>,
    ) -> bool {
        self.0.may_retire(sandbox_id, execution_id, r)
    }

    fn is_routed(&self, sandbox_id: SandboxId) -> (r: Result<bool, PlacementError>) {
        let located = self.0.place_existing(sandbox_id);
        assert(self.0.may_locate(sandbox_id, located));
        routing_answer(located)
    }

    fn forget(&self, sandbox_id: SandboxId, execution_id: ExecutionId) -> (r: Result<
        (),
        PlacementError,
    >) {
        self.0.forget_placement(sandbox_id, execution_id)
    }
}

/// How long a reservation outlives the process that wrote it, in seconds.
///
/// It bounds the window in which a launch that died mid-flight keeps a sandbox id
/// unreapable, so it must exceed the slowest create — a cold image pull and
/// conversion — while staying far below any human's patience for a stuck id.
pub const PLACEMENT_RESERVATION_TTL_SECS: u64 = 300;

/// Sends every operation to one fixed node.
pub struct FixedNodePlacement {
    node: NodeEndpoint,
}

impl FixedNodePlacement {
    /// The fixed node.
    pub closed spec fn fixed(&self) -> NodeEndpoint {
        self.node
    }

    /// A placement that sends every operation to `node`.
    pub fn new(node: NodeEndpoint) -> (r: FixedNodePlacement)
        ensures
            r.fixed() == node,
    {
        FixedNodePlacement { node }
    }
}

impl NodePlacement for FixedNodePlacement {
    /// Always the fixed node.
    open spec fn may_locate(
        &self,
        sandbox_id: SandboxId,
        r: Result<Option<NodeEndpoint>, PlacementError>,
    ) -> bool {
        r == Ok::<_, PlacementError>(Some(self.fixed()))
    }

    /// Always success.
    open spec fn may_retire(
        &self,
        sandbox_id: SandboxId,
        execution_id: ExecutionId,
        r: Result<(), PlacementError>,
    ) -> bool {
        r is Ok
    }

    /// Always the fixed node.
    open spec fn may_place(
        &self,
        sandbox_id: SandboxId,
        resources: SandboxResources,
        preferred_node_id: Option<&str>,
        excluded_node_ids: Seq<String>,
        r: Result<NodeEndpoint, PlacementError>,
    ) -> bool {
        r == Ok::<_, PlacementError>(self.fixed())
    }

    fn place_new(
        &self,
        _sandbox_id: SandboxId,
        _resources: SandboxResources,
        _preferred_node_id: Option<&str>,
        _excluded_node_ids: &[String],
    ) -> (r: Result<NodeEndpoint, PlacementError>) {
        Ok(self.node.clone())
    }

    /// Always returns the fixed node.
    fn place_existing(&self, _sandbox_id: SandboxId) -> (r: Result<
        Option<NodeEndpoint>,
        PlacementError,
    >) {
        Ok(Some(self.node.clone()))
    }

    /// Resolves any identity to the fixed node; callers enforce identity constraints.
    fn resolve_node(&self, _node_id: &str) -> (r: Result<NodeEndpoint, PlacementError>)
        ensures
            r == Ok::<_, PlacementError>(self.fixed()),
    {
        Ok(self.node.clone())
    }

    /// Always reports the fixed node present.
    fn node_membership(&self, _node_id: &str) -> (r: Result<NodeMembership, PlacementError>)
        ensures
            r == Ok::<_, PlacementError>(NodeMembership::Present),
    {
        Ok(NodeMembership::Present)
    }

    /// Does nothing because fixed placement has no mutable index.
    fn record_placement(
        &self,
        _sandbox_id: SandboxId,
        _execution_id: ExecutionId,
        _node: &NodeEndpoint,
        _projection_ttl_secs: u32,
    ) -> (r: Result<(), PlacementError>)
        ensures
            r is Ok,
    {
        Ok(())
    }

    /// Succeeds without writing: the one fixed node is already the whole answer,
    /// and a lookup against it can never come back empty.
    fn reserve_placement(
        &self,
        _sandbox_id: SandboxId,
        _execution_id: ExecutionId,
        _node: &NodeEndpoint,
    ) -> (r: Result<(), PlacementError>)
        ensures
            r is Ok,
    {
        Ok(())
    }

    fn release_placement_reservation(&self, _sandbox_id: SandboxId, _execution_id: ExecutionId) -> (r:
        Result<(), PlacementError>)
        ensures
            r is Ok,
    {
        Ok(())
    }

    /// Claims without writing: one fixed node has no second replica to race,
    /// and two launches of one id reaching that node are excluded there by its
    /// own launch claims before either allocates anything.
    fn reserve_launch(&self, _sandbox_id: SandboxId, _execution_id: ExecutionId) -> (r: Result<
        (),
        PlacementError,
    >)
        ensures
            r is Ok,
    {
        Ok(())
    }

    /// Succeeds without writing: nothing was reserved.
    fn release_launch(&self, _sandbox_id: SandboxId, _execution_id: ExecutionId) -> (r: Result<
        (),
        PlacementError,
    >)
        ensures
            r is Ok,
    {
        Ok(())
    }

    /// Succeeds without writing: there is no record to retire.
    fn forget_placement(&self, _sandbox_id: SandboxId, _execution_id: ExecutionId) -> (r: Result<
        (),
        PlacementError,
    >) {
        Ok(())
    }
}

/// A failed lookup is never read as absence: routing answers that nothing routes to a sandbox only
/// where a complete lookup found no record.
pub proof fn only_absence_is_unrouted(located: Result<Option<NodeEndpoint>, PlacementError>)
    ensures
        routing_of(located) == Ok::<bool, PlacementError>(false) <==> located == Ok::<
            _,
            PlacementError,
        >(None::<NodeEndpoint>),
        located is Err <==> routing_of(located) is Err,
{
}

/// A sandbox placed by a fixed placement is always routed.
pub proof fn fixed_placements_always_route(
    p: PlacementRuntimeRouting<FixedNodePlacement>,
    sandbox_id: SandboxId,
    r: Result<bool, PlacementError>,
)
    requires
        p.may_answer(sandbox_id, r),
    ensures
        r == Ok::<bool, PlacementError>(true),
{
}

/// Routing passes a failed lookup's error on as it is, and answers that something routes to a
/// sandbox wherever a lookup found a node.
pub proof fn lookups_decide_the_routing(node: NodeEndpoint, e: PlacementError)
    ensures
        routing_of(Ok(Some(node))) == Ok::<bool, PlacementError>(true),
        routing_of(Ok(None)) == Ok::<bool, PlacementError>(false),
        routing_of(Err(e)) == Err::<bool, PlacementError>(e),
{
}

/// Routing by a placement source asks that source, of the same sandbox and execution: what it
/// answers is a lookup's answer, and what it retires the source has retired.
pub proof fn routing_asks_its_source<P: NodePlacement>(
    p: PlacementRuntimeRouting<P>,
    sandbox_id: SandboxId,
    execution_id: ExecutionId,
    answer: Result<bool, PlacementError>,
    retired: Result<(), PlacementError>,
)
    ensures
        p.may_answer(sandbox_id, answer) && answer == Ok::<bool, PlacementError>(false)
            ==> p.0.may_locate(sandbox_id, Ok(None)),
        p.may_answer(sandbox_id, answer) && answer == Ok::<bool, PlacementError>(true)
            ==> exists|node: NodeEndpoint| #[trigger] p.0.may_locate(sandbox_id, Ok(Some(node))),
        p.may_answer(sandbox_id, answer) ==> (answer matches Err(e) ==> p.0.may_locate(
            sandbox_id,
            Err(e),
        )),
        p.may_forget(sandbox_id, execution_id, retired) <==> p.0.may_retire(
            sandbox_id,
            execution_id,
            retired,
        ),
{
    if p.may_answer(sandbox_id, answer) {
        let located = choose|located: Result<Option<NodeEndpoint>, PlacementError>| #[trigger]
            p.0.may_locate(sandbox_id, located) && answer == routing_of(located);
        match located {
            Ok(Some(node)) => {
                assert(p.0.may_locate(sandbox_id, Ok(Some(node))));
            },
            _ => {},
        }
    }
}

/// A fixed placement answers every operation with its one node, whatever was asked for.
pub proof fn fixed_placements_have_one_node(
    p: FixedNodePlacement,
    sandbox_id: SandboxId,
    execution_id: ExecutionId,
    resources: SandboxResources,
    preferred: Option<&str>,
    excluded: Seq<String>,
    located: Result<Option<NodeEndpoint>, PlacementError>,
    placed: Result<NodeEndpoint, PlacementError>,
    retired: Result<(), PlacementError>,
)
    ensures
        p.may_locate(sandbox_id, located) ==> located is Ok && located->Ok_0 == Some(p.fixed()),
        p.may_place(sandbox_id, resources, preferred, excluded, placed) ==> placed is Ok
            && placed->Ok_0 == p.fixed(),
        p.may_retire(sandbox_id, execution_id, retired) ==> retired is Ok,
{
}

} // verus!
