//! Decides the node-registry RPC subset of the scheduler service.
//!
//! Heartbeats store the full roster in the node registry and reconcile it into the
//! binding store. Unregister removes identity first, so route cleanup is best-effort.
//! Optional binding and artifact dependencies gate their RPC groups.
//!
//! Each request is answered in steps: one function admits it and says what a store is asked, and
//! another turns the store's answer into the response.

use crate::node_registry::fleet::{node_read, observed_node, NodeObservations};
use crate::node_registry::registry::NodeRegistry;
use crate::node_registry::status::{is_status, Code, Status};
use crate::node_registry::strategy::RoundRobinStrategy;
use crate::node_registry::types::{
    EgressBrokerState, Node, NodeStatus, ObservedNode, RosterEntry, ScheduleRequestHint,
};
use crate::node_registry::warmup::{NodeReading, WarmupGate};
use crate::text::{trim, trimmed};
use crate::time::{Span, Timestamp, NANOS_PER_SEC};
use vstd::prelude::*;
use vstd::string::*;

verus! {

/// Suffix on `unimplemented` errors for the RPC groups an optional dependency gates.
pub const NOT_WIRED: &'static str = "an assembled aenv-api wires every optional dependency, so a caller reaching this arm is talking to an in-process or test build";

/// A shadow scorer that samples `k` candidates.
#[derive(Debug, Clone, Copy, PartialEq, Eq, Structural)]
pub struct ShadowPlacement {
    pub k: u32,
}

/// Decides the node-registry subset of the scheduler service.
pub struct NodeRegistryGrpcService<R> {
    pub registry: R,
    pub warmup: WarmupGate,
    /// Whether a binding store is wired.
    pub binding_store: bool,
    /// Governs projection TTLs only, and must match the binding store's
    /// construction-time authoritative setting.
    pub projection_authoritative: bool,
    pub max_projection_ttl: Span,
    /// Whether a P2P artifact index is wired.
    pub artifact_store: bool,
    pub strategy: RoundRobinStrategy,
    /// The shadow scorer; the default one where there is none.
    pub shadow: Option<ShadowPlacement>,
    /// Whether a reaper is wired. Absent leaves every roster entry alone, which is what a
    /// deployment with no metadata store to compare against has to do.
    pub orphan_reaper: bool,
}

/// Whether a binding is a running sandbox's or a reservation.
#[derive(Debug, Clone, Copy, PartialEq, Eq, Structural)]
pub enum BindingState {
    /// The node was asked for the sandbox, and it is not known to run.
    Starting,
    /// The sandbox runs.
    Confirmed,
}

/// A sandbox's routing record.
#[derive(Debug)]
pub struct Binding {
    pub node: Node,
    pub execution_id: String,
    pub projection_ttl: Span,
    pub state: BindingState,
}

/// Where the time to live of a projection comes from.
#[derive(Debug, Clone, Copy, PartialEq, Eq, Structural)]
pub enum TtlSource {
    /// The store's default.
    Default,
    /// What the node offered.
    Node,
    /// The ceiling, since the node offered more.
    Clamped,
}

/// The metric label of a TTL source.
pub open spec fn ttl_source_label(source: TtlSource) -> Seq<char> {
    match source {
        TtlSource::Default => "default"@,
        TtlSource::Node => "node"@,
        TtlSource::Clamped => "clamped"@,
    }
}

impl TtlSource {
    /// The metric label of the source.
    pub fn as_str(&self) -> (r: &'static str)
        ensures
            r@ == ttl_source_label(*self),
    {
        match self {
            TtlSource::Default => "default",
            TtlSource::Node => "node",
            TtlSource::Clamped => "clamped",
        }
    }
}

/// A binding that a store is asked to write.
#[derive(Debug)]
pub struct BindingWrite {
    pub sandbox_id: String,
    pub binding: Binding,
    /// Where the binding's time to live comes from, where it is a projection's.
    pub ttl_source: Option<TtlSource>,
}

/// A binding that a store is asked to delete or release, if this execution holds it.
#[derive(Debug)]
pub struct BindingDelete {
    pub sandbox_id: String,
    pub execution_id: String,
}

/// What a store did with a delete.
#[derive(Debug, Clone, Copy, PartialEq, Eq, Structural)]
pub enum BindingDeleteOutcome {
    Deleted,
    DeletedUnknownIncumbent,
    Absent,
    RejectedConfirmed,
    RejectedStale,
}

/// Who vouches for the execution in a lookup's answer.
#[derive(Debug, Clone, Copy, PartialEq, Eq, Structural)]
pub enum ExecutionAuthority {
    Registry,
    Unknown,
}

impl ExecutionAuthority {
    /// The metric label of the authority.
    pub fn as_str(&self) -> (r: &'static str)
        ensures
            r@ == match *self {
                ExecutionAuthority::Registry => "registry"@,
                ExecutionAuthority::Unknown => "unknown"@,
            },
    {
        match self {
            ExecutionAuthority::Registry => "registry",
            ExecutionAuthority::Unknown => "unknown",
        }
    }
}

/// How a lookup was answered.
#[derive(Debug, PartialEq, Eq)]
pub enum LookupResultLabel {
    /// The binding store answered.
    BoundBinding,
    /// The request named no sandbox.
    InvalidArgument,
    /// Any other answer, by name.
    Other(String),
}

/// Where a sandbox runs, under which execution, and which source says so.
#[derive(Debug)]
pub struct LookupAnswer {
    pub node: Node,
    pub execution_id: String,
    pub label: LookupResultLabel,
    pub execution_authority: ExecutionAuthority,
}

/// What a lookup came to.
#[derive(Debug)]
pub enum LookupOutcome {
    Answer(LookupAnswer),
    /// Nothing holds the sandbox.
    NotFound,
    /// Whether anything holds the sandbox cannot be said, and why.
    Unavailable(LookupResultLabel, String),
}

/// The kinds of event a node reports of a sandbox.
#[derive(Debug, Clone, Copy, PartialEq, Eq, Structural)]
pub enum SandboxEventType {
    Unspecified,
    Create,
    Delete,
    Pause,
    Resume,
    Fork,
}

/// An event that a node reports. `execution_id` is the normalized one, empty where it is unknown.
#[derive(Debug)]
pub struct SandboxEvent {
    pub event_type: SandboxEventType,
    pub sandbox_id: String,
    pub execution_id: String,
}

/// What is done with an event.
#[derive(Debug)]
pub enum EventAction {
    /// The projection of the sandbox is deleted, if the execution holds it.
    Delete(BindingDelete),
    /// Nothing is done; the outcome is recorded.
    Record { outcome: &'static str },
}

/// A P2P artifact and the node that holds it.
#[derive(Debug)]
pub struct ArtifactFields {
    pub cluster_id: String,
    pub backend: String,
    pub key: String,
    pub node_id: String,
}

/// A P2P artifact lookup: the artifact, the node to leave out and how many peers to name.
#[derive(Debug)]
pub struct ArtifactLookup {
    pub fields: ArtifactFields,
    pub exclude_node_id: String,
    pub limit: usize,
}

/// The limit that a P2P artifact lookup is made with.
pub const ARTIFACT_PEER_LIMIT: usize = 0;

/// What a heartbeat of a known node is followed by.
#[derive(Debug)]
pub struct HeartbeatPlan {
    /// The registry's node, whose identity the warm-up gate sees in a discovery snapshot.
    pub node: Node,
    /// What the node reported, for the reaper and then the binding store.
    pub roster: Vec<RosterEntry>,
    /// The CPU config that the reply carries.
    pub cpu_config_json: String,
    /// The reaper sees the roster, before it is consumed.
    pub reap: bool,
    /// The roster is reconciled into the binding store.
    pub reconcile: bool,
}

/// A node to unregister.
#[derive(Debug)]
pub struct Unregistration {
    pub canonical_id: String,
    pub service_instance_id: String,
}

/// What follows the removal of a node's identity, best-effort.
#[derive(Debug)]
pub struct UnregisterCleanup {
    /// The node and roster to reconcile into the binding store, where one is wired.
    pub reconcile: Option<(Node, Vec<RosterEntry>)>,
    /// The node whose artifacts are forgotten, where an artifact store is wired.
    pub forget: Option<String>,
}

/// How a node's removal ended.
#[derive(Debug, Clone, Copy, PartialEq, Eq, Structural)]
pub struct Unregistered {
    /// Any bindings that the node still owns expire on their own time to live.
    pub bindings_left: bool,
}

/// Why no node was selected.
#[derive(Debug, Clone, Copy, PartialEq, Eq, Structural)]
pub enum SelectNodeError {
    /// There are nodes, none with a usable egress broker.
    NoEgressBrokerNode,
    /// There is no node.
    NoNodes,
}

/// The node that a placement names on the wire.
#[derive(Debug)]
pub struct WireNode {
    pub node_id: String,
    pub endpoint: String,
}

/// The TTL that a projection gets for what the node offered, in nanoseconds, and its source.
pub open spec fn projection_ttl(authoritative: bool, max: int, raw: int) -> (int, TtlSource) {
    if !authoritative || raw == 0 {
        (0, TtlSource::Default)
    } else if max != 0 && raw > max {
        (max, TtlSource::Clamped)
    } else {
        (raw, TtlSource::Node)
    }
}

/// A projection TTL in seconds as a span.
pub fn projection_ttl_from_secs(secs: u32) -> (r: Span)
    ensures
        r@ == secs as int * NANOS_PER_SEC,
{
    Span::from_secs(secs as u64)
}

/// A message about a dependency that is not wired.
pub open spec fn not_wired(head: Seq<char>) -> Seq<char> {
    head + NOT_WIRED@
}

impl<R: NodeRegistry> NodeRegistryGrpcService<R> {
    /// A service without optional dependencies.
    pub fn new(registry: R, warmup: WarmupGate) -> (r: NodeRegistryGrpcService<R>)
        ensures
            r.registry == registry,
            r.warmup == warmup,
            !r.binding_store,
            !r.projection_authoritative,
            r.max_projection_ttl@ == 0,
            !r.artifact_store,
            r.strategy@ == 0,
            r.shadow is None,
            !r.orphan_reaper,
    {
        NodeRegistryGrpcService {
            registry,
            warmup,
            binding_store: false,
            projection_authoritative: false,
            max_projection_ttl: Span::zero(),
            artifact_store: false,
            strategy: RoundRobinStrategy::new(),
            shadow: None,
            orphan_reaper: false,
        }
    }

    /// Wires the reaper that deletes sandboxes a roster names and no record does.
    #[must_use]
    pub fn with_orphan_reaper(self) -> (r: NodeRegistryGrpcService<R>)
        ensures
            r == (NodeRegistryGrpcService { orphan_reaper: true, ..self }),
    {
        NodeRegistryGrpcService { orphan_reaper: true, ..self }
    }

    /// Replaces the shadow scorer with one sampling `k` candidates.
    #[must_use]
    pub fn with_placement_shadow_k(self, k: u32) -> (r: NodeRegistryGrpcService<R>)
        ensures
            r == (NodeRegistryGrpcService { shadow: Some(ShadowPlacement { k }), ..self }),
    {
        NodeRegistryGrpcService { shadow: Some(ShadowPlacement { k }), ..self }
    }

    /// Replaces the shadow scorer.
    #[must_use]
    pub fn with_placement_shadow(self, shadow: ShadowPlacement) -> (r: NodeRegistryGrpcService<R>)
        ensures
            r == (NodeRegistryGrpcService { shadow: Some(shadow), ..self }),
    {
        NodeRegistryGrpcService { shadow: Some(shadow), ..self }
    }

    /// Wires the optional P2P artifact index.
    #[must_use]
    pub fn with_artifact_store(self) -> (r: NodeRegistryGrpcService<R>)
        ensures
            r == (NodeRegistryGrpcService { artifact_store: true, ..self }),
    {
        NodeRegistryGrpcService { artifact_store: true, ..self }
    }

    /// Wires the binding store and its matching authoritative-projection setting.
    #[must_use]
    pub fn with_binding_store(self, projection_authoritative: bool, max_projection_ttl: Span) -> (r:
        NodeRegistryGrpcService<R>)
        ensures
            r == (NodeRegistryGrpcService {
                binding_store: true,
                projection_authoritative,
                max_projection_ttl,
                ..self
            }),
    {
        NodeRegistryGrpcService {
            binding_store: true,
            projection_authoritative,
            max_projection_ttl,
            ..self
        }
    }

    /// Admits a lookup of a running sandbox: the id that the binding store, then the heartbeat
    /// roster, are asked for.
    pub fn lookup_sandbox(&self, sandbox_id: &str) -> (r: Result<String, Status>)
        ensures
            match r {
                Ok(id) => self.binding_store && trimmed(sandbox_id@).len() > 0 && id@ == trimmed(
                    sandbox_id@,
                ),
                Err(status) => if !self.binding_store {
                    is_status(status, Code::Unimplemented, not_wired(LOOKUP_NOT_WIRED@))
                } else {
                    trimmed(sandbox_id@).len() == 0 && is_status(
                        status,
                        Code::InvalidArgument,
                        "sandbox_id is required"@,
                    )
                },
            },
    {
        if !self.binding_store {
            return Err(Status::joined(Code::Unimplemented, LOOKUP_NOT_WIRED, NOT_WIRED));
        }
        required(sandbox_id, "sandbox_id is required")
    }

    /// What a lookup comes to, from the binding that the store holds for the sandbox.
    ///
    /// A confirmed binding names its node and execution. A reservation is neither an answer nor an
    /// absence, since a create has not finished, and a miss is absence only where the warm-up gate
    /// is open, whatever a roster says. `in_flight` is what a reservation is answered with, and
    /// `seeding` what a miss is answered with while the warm-up gate is shut.
    pub fn lookup_bound(
        &mut self,
        binding: Option<Binding>,
        execution_authority: ExecutionAuthority,
        in_flight: (LookupResultLabel, String),
        seeding: (LookupResultLabel, String),
        nodes: &Vec<NodeReading>,
        now: Timestamp,
    ) -> (r: LookupOutcome)
        ensures
            match binding {
                Some(b) => {
                    &&& *final(self) == *old(self)
                    &&& r == match b.state {
                        BindingState::Confirmed => LookupOutcome::Answer(
                            LookupAnswer {
                                node: b.node,
                                execution_id: b.execution_id,
                                label: LookupResultLabel::BoundBinding,
                                execution_authority,
                            },
                        ),
                        BindingState::Starting => LookupOutcome::Unavailable(in_flight.0, in_flight.1),
                    }
                },
                None => {
                    &&& final(self).warmup@ == old(self).warmup@.asked(nodes@, now@)
                    &&& *final(self) == (NodeRegistryGrpcService {
                        warmup: final(self).warmup,
                        ..*old(self)
                    })
                    &&& r == if old(self).warmup@.open(nodes@, now@) {
                        LookupOutcome::NotFound
                    } else {
                        LookupOutcome::Unavailable(seeding.0, seeding.1)
                    }
                },
            },
    {
        match binding {
            Some(b) => match b.state {
                BindingState::Confirmed => LookupOutcome::Answer(
                    LookupAnswer {
                        node: b.node,
                        execution_id: b.execution_id,
                        label: LookupResultLabel::BoundBinding,
                        execution_authority,
                    },
                ),
                BindingState::Starting => LookupOutcome::Unavailable(in_flight.0, in_flight.1),
            },
            None => if self.warmup.warmed_up(nodes, now) {
                LookupOutcome::NotFound
            } else {
                LookupOutcome::Unavailable(seeding.0, seeding.1)
            },
        }
    }

    /// The data-plane endpoint discovery has for a node, if it is known.
    pub fn node_endpoint(&self, node_id: &str) -> (r: Option<String>)
        ensures
            r == match self.registry.resolves(trimmed(node_id@)) {
                Some(node) => Some(node.endpoint),
                None => None,
            },
    {
        match self.registry.resolve(trim(node_id).as_str()) {
            Some(node) => Some(node.endpoint),
            None => None,
        }
    }

    /// Why a projection is not recorded, where it is not: its code and message.
    pub open spec fn projection_refusal(&self, sandbox_id: Seq<char>, node_id: Seq<char>) -> Option<
        (Code, Seq<char>),
    > {
        if !self.binding_store {
            Some((Code::Unimplemented, not_wired(RECORD_NOT_WIRED@)))
        } else if trimmed(sandbox_id).len() == 0 {
            Some((Code::InvalidArgument, "sandbox_id is required"@))
        } else if trimmed(node_id).len() == 0 {
            Some((Code::InvalidArgument, "node_id is required"@))
        } else if self.registry.resolves(trimmed(node_id)) is None {
            Some((Code::InvalidArgument, "node is not in scheduler node list"@))
        } else {
            None
        }
    }

    /// `w` is the binding of a sandbox that runs under `execution` on the node that discovery has
    /// for `node_id`: the caller's idea of its address never reaches the binding.
    pub open spec fn is_projection(
        &self,
        w: BindingWrite,
        sandbox_id: Seq<char>,
        node_id: Seq<char>,
        execution: Seq<char>,
        ttl_secs: u32,
    ) -> bool {
        let ttl = projection_ttl(
            self.projection_authoritative,
            self.max_projection_ttl@,
            ttl_secs as int * NANOS_PER_SEC,
        );
        &&& w.sandbox_id@ == trimmed(sandbox_id)
        &&& Some(w.binding.node) == self.registry.resolves(trimmed(node_id))
        &&& w.binding.execution_id@ == execution
        &&& w.binding.projection_ttl@ == ttl.0
        &&& w.ttl_source == Some(ttl.1)
        &&& w.binding.state == BindingState::Confirmed
    }

    /// The binding for a sandbox running under `execution` on `node_id`, from this process's own
    /// resume surface.
    ///
    /// Same normalisation, TTL gate and cap as [`record_assignment`](Self::record_assignment); the
    /// caller treats an error as a missed hit, never as a failed wake-up.
    pub fn record_running(
        &self,
        sandbox_id: &str,
        node_id: &str,
        execution: &str,
        projection_ttl_secs: u32,
    ) -> (r: Result<BindingWrite, Status>)
        ensures
            match r {
                Ok(w) => self.projection_refusal(sandbox_id@, node_id@) is None
                    && self.is_projection(
                    w,
                    sandbox_id@,
                    node_id@,
                    execution@,
                    projection_ttl_secs,
                ),
                Err(status) => self.projection_refusal(sandbox_id@, node_id@) matches Some(
                    (code, message),
                ) && is_status(status, code, message),
            },
    {
        self.record_projection(sandbox_id, node_id, execution, projection_ttl_secs)
    }

    /// The binding for a sandbox the REST create path placed on `node_id`. The node is resolved
    /// through discovery, so the caller's idea of its address never reaches the binding.
    pub fn record_assignment(
        &self,
        sandbox_id: &str,
        node_id: &str,
        execution: &str,
        projection_ttl_secs: u32,
    ) -> (r: Result<BindingWrite, Status>)
        ensures
            match r {
                Ok(w) => self.projection_refusal(sandbox_id@, node_id@) is None
                    && self.is_projection(
                    w,
                    sandbox_id@,
                    node_id@,
                    execution@,
                    projection_ttl_secs,
                ),
                Err(status) => self.projection_refusal(sandbox_id@, node_id@) matches Some(
                    (code, message),
                ) && is_status(status, code, message),
            },
    {
        self.record_projection(sandbox_id, node_id, execution, projection_ttl_secs)
    }

    fn record_projection(
        &self,
        sandbox_id: &str,
        node_id: &str,
        execution: &str,
        projection_ttl_secs: u32,
    ) -> (r: Result<BindingWrite, Status>)
        ensures
            match r {
                Ok(w) => self.projection_refusal(sandbox_id@, node_id@) is None
                    && self.is_projection(
                    w,
                    sandbox_id@,
                    node_id@,
                    execution@,
                    projection_ttl_secs,
                ),
                Err(status) => self.projection_refusal(sandbox_id@, node_id@) matches Some(
                    (code, message),
                ) && is_status(status, code, message),
            },
    {
        if !self.binding_store {
            return Err(Status::joined(Code::Unimplemented, RECORD_NOT_WIRED, NOT_WIRED));
        }
        let sandbox_id = match required(sandbox_id, "sandbox_id is required") {
            Ok(v) => v,
            Err(e) => {
                return Err(e);
            },
        };
        let node_id = match required(node_id, "node_id is required") {
            Ok(v) => v,
            Err(e) => {
                return Err(e);
            },
        };
        self.write_binding(sandbox_id, node_id, execution, projection_ttl_secs)
    }

    fn write_binding(
        &self,
        sandbox_id: String,
        node_id: String,
        execution: &str,
        projection_ttl_secs: u32,
    ) -> (r: Result<BindingWrite, Status>)
        ensures
            match (r, self.registry.resolves(node_id@)) {
                (Ok(w), Some(node)) => {
                    let ttl = projection_ttl(
                        self.projection_authoritative,
                        self.max_projection_ttl@,
                        projection_ttl_secs as int * NANOS_PER_SEC,
                    );
                    &&& w.sandbox_id == sandbox_id
                    &&& w.binding.node == node
                    &&& w.binding.execution_id@ == execution@
                    &&& w.binding.projection_ttl@ == ttl.0
                    &&& w.ttl_source == Some(ttl.1)
                    &&& w.binding.state == BindingState::Confirmed
                },
                (Err(status), None) => is_status(
                    status,
                    Code::InvalidArgument,
                    "node is not in scheduler node list"@,
                ),
                _ => false,
            },
    {
        match self.registry.resolve(node_id.as_str()) {
            None => Err(Status::new(Code::InvalidArgument, "node is not in scheduler node list")),
            Some(node) => {
                let (projection_ttl, ttl_source) = self.resolve_projection_ttl(
                    projection_ttl_from_secs(projection_ttl_secs),
                );
                Ok(
                    BindingWrite {
                        sandbox_id,
                        binding: Binding {
                            node,
                            execution_id: execution.to_owned(),
                            projection_ttl,
                            state: BindingState::Confirmed,
                        },
                        ttl_source: Some(ttl_source),
                    },
                )
            },
        }
    }

    /// Why a reservation is not made, where it is not: its code and message.
    pub open spec fn reservation_refusal(&self, sandbox_id: Seq<char>, node_id: Seq<char>) -> Option<
        (Code, Seq<char>),
    > {
        if !self.binding_store {
            Some((Code::Unimplemented, not_wired(RESERVE_NOT_WIRED@)))
        } else if trimmed(sandbox_id).len() == 0 {
            Some((Code::InvalidArgument, "sandbox_id is required"@))
        } else if self.registry.resolves(trimmed(node_id)) is None {
            Some((Code::InvalidArgument, "node is not in scheduler node list"@))
        } else {
            None
        }
    }

    /// Reserves a sandbox's routing record before the node that will run it is asked to.
    ///
    /// In-process only: it is the create path's half of the invariant that every
    /// runtime has a control-plane record older than itself, and no scheduler
    /// caller may reserve on another's behalf.
    pub fn reserve_assignment(
        &self,
        sandbox_id: &str,
        node_id: &str,
        execution: &str,
        reservation_ttl: Span,
    ) -> (r: Result<BindingWrite, Status>)
        ensures
            match r {
                Ok(w) => {
                    &&& self.reservation_refusal(sandbox_id@, node_id@) is None
                    &&& w.sandbox_id@ == trimmed(sandbox_id@)
                    &&& Some(w.binding.node) == self.registry.resolves(trimmed(node_id@))
                    &&& w.binding.execution_id@ == execution@
                    &&& w.binding.projection_ttl == reservation_ttl
                    &&& w.binding.state == BindingState::Starting
                    &&& w.ttl_source is None
                },
                Err(status) => self.reservation_refusal(sandbox_id@, node_id@) matches Some(
                    (code, message),
                ) && is_status(status, code, message),
            },
    {
        if !self.binding_store {
            return Err(Status::joined(Code::Unimplemented, RESERVE_NOT_WIRED, NOT_WIRED));
        }
        let sandbox_id = match required(sandbox_id, "sandbox_id is required") {
            Ok(v) => v,
            Err(e) => {
                return Err(e);
            },
        };
        match self.registry.resolve(trim(node_id).as_str()) {
            None => Err(Status::new(Code::InvalidArgument, "node is not in scheduler node list")),
            Some(node) => Ok(
                BindingWrite {
                    sandbox_id,
                    binding: Binding {
                        node,
                        execution_id: execution.to_owned(),
                        projection_ttl: reservation_ttl,
                        state: BindingState::Starting,
                    },
                    ttl_source: None,
                },
            ),
        }
    }

    /// Why a projection is not retired, where it is not: its code and message.
    pub open spec fn retirement_refusal(&self, sandbox_id: Seq<char>, execution: Seq<char>) -> Option<
        (Code, Seq<char>),
    > {
        if !self.binding_store {
            Some((Code::Unimplemented, not_wired(FORGET_NOT_WIRED@)))
        } else if trimmed(sandbox_id).len() == 0 {
            Some((Code::InvalidArgument, "sandbox_id is required"@))
        } else if execution.len() == 0 {
            Some((Code::InvalidArgument, "execution_id is required"@))
        } else {
            None
        }
    }

    /// Why a reservation is not released, where it is not: its code and message.
    pub open spec fn release_refusal(&self, sandbox_id: Seq<char>) -> Option<(Code, Seq<char>)> {
        if !self.binding_store {
            Some((Code::Unimplemented, not_wired(RELEASE_NOT_WIRED@)))
        } else if trimmed(sandbox_id).len() == 0 {
            Some((Code::InvalidArgument, "sandbox_id is required"@))
        } else {
            None
        }
    }

    /// Retires a sandbox's routing projection as its incarnation is torn down.
    ///
    /// This is the primary removal path: the teardown that removes the sandbox
    /// calls it before the metadata record goes, so no window exists in which
    /// the projection still names a node that no longer runs the sandbox. An unguarded delete would
    /// take whatever incarnation is bound now, so an execution is required.
    pub fn forget_assignment(&self, sandbox_id: &str, execution: &str) -> (r: Result<
        BindingDelete,
        Status,
    >)
        ensures
            match r {
                Ok(d) => self.retirement_refusal(sandbox_id@, execution@) is None && d.sandbox_id@
                    == trimmed(sandbox_id@) && d.execution_id@ == execution@,
                Err(status) => self.retirement_refusal(sandbox_id@, execution@) matches Some(
                    (code, message),
                ) && is_status(status, code, message),
            },
    {
        if !self.binding_store {
            return Err(Status::joined(Code::Unimplemented, FORGET_NOT_WIRED, NOT_WIRED));
        }
        let sandbox_id = match required(sandbox_id, "sandbox_id is required") {
            Ok(v) => v,
            Err(e) => {
                return Err(e);
            },
        };
        if execution.is_empty() {
            return Err(Status::new(Code::InvalidArgument, "execution_id is required"));
        }
        Ok(BindingDelete { sandbox_id, execution_id: execution.to_owned() })
    }

    /// Withdraws a reservation this process wrote, leaving a confirmation alone.
    pub fn release_assignment_reservation(&self, sandbox_id: &str, execution: &str) -> (r: Result<
        BindingDelete,
        Status,
    >)
        ensures
            match r {
                Ok(d) => self.release_refusal(sandbox_id@) is None && d.sandbox_id@ == trimmed(
                    sandbox_id@,
                ) && d.execution_id@ == execution@,
                Err(status) => self.release_refusal(sandbox_id@) matches Some((code, message))
                    && is_status(status, code, message),
            },
    {
        if !self.binding_store {
            return Err(Status::joined(Code::Unimplemented, RELEASE_NOT_WIRED, NOT_WIRED));
        }
        match required(sandbox_id, "sandbox_id is required") {
            Ok(sandbox_id) => Ok(BindingDelete { sandbox_id, execution_id: execution.to_owned() }),
            Err(e) => Err(e),
        }
    }

    /// Resolves the received projection TTL, applying the authoritative gate and cap.
    pub fn resolve_projection_ttl(&self, raw: Span) -> (r: (Span, TtlSource))
        ensures
            (r.0@, r.1) == projection_ttl(
                self.projection_authoritative,
                self.max_projection_ttl@,
                raw@,
            ),
            !self.projection_authoritative || raw@ == 0 ==> r.0@ == 0 && r.1 == TtlSource::Default,
            self.projection_authoritative && raw@ != 0 && (self.max_projection_ttl@ == 0 || raw@
                <= self.max_projection_ttl@) ==> r == (raw, TtlSource::Node),
            self.projection_authoritative && raw@ != 0 && self.max_projection_ttl@ != 0 && raw@
                > self.max_projection_ttl@ ==> r == (self.max_projection_ttl, TtlSource::Clamped),
    {
        if !self.projection_authoritative || raw.is_zero() {
            return (Span::zero(), TtlSource::Default);
        }
        let ceiling: i128 = self.max_projection_ttl.total_nanos();
        if ceiling != 0 && raw.total_nanos() > ceiling {
            return (self.max_projection_ttl, TtlSource::Clamped);
        }
        (raw, TtlSource::Node)
    }

    /// The node that P2P artifact fields name: the one discovery has for it, or what it says.
    pub open spec fn artifact_node(&self, node_id: Option<Seq<char>>) -> Seq<char> {
        match node_id {
            Some(raw) => match self.registry.resolves(trimmed(raw)) {
                Some(node) => node.id@,
                None => trimmed(raw),
            },
            None => Seq::empty(),
        }
    }

    /// Validates required P2P artifact fields and resolves an optional node identity.
    pub fn validate_p2p_artifact_fields(
        &self,
        cluster_id: &str,
        backend: &str,
        key: &str,
        node_id: Option<&str>,
    ) -> (r: Result<ArtifactFields, Status>)
        ensures
            artifact_answer(
                self,
                cluster_id@,
                backend@,
                key@,
                match node_id {
                    Some(raw) => Some(raw@),
                    None => None,
                },
                r,
            ),
    {
        let cluster_id = trim(cluster_id);
        let backend = trim(backend);
        let key = trim(key);
        if cluster_id.as_str().is_empty() || backend.as_str().is_empty()
            || key.as_str().is_empty() {
            return Err(
                Status::new(Code::InvalidArgument, "cluster_id, backend, and key are required"),
            );
        }
        let node_id = match node_id {
            Some(raw) => {
                let raw = trim(raw);
                if raw.as_str().is_empty() {
                    return Err(Status::new(Code::InvalidArgument, "node_id is required"));
                }
                match self.registry.resolve(raw.as_str()) {
                    Some(node) => node.id,
                    None => raw,
                }
            },
            None => String::new(),
        };
        Ok(ArtifactFields { cluster_id, backend, key, node_id })
    }

    /// Admits a heartbeat: the node and service instance that it speaks for.
    pub fn heartbeat_request(&self, node_id: &str, service_instance_id: &str) -> (r: Result<
        (String, String),
        Status,
    >)
        ensures
            match r {
                Ok((node, instance)) => node@ == trimmed(node_id@) && instance@ == trimmed(
                    service_instance_id@,
                ) && node@.len() > 0 && instance@.len() > 0,
                Err(status) => (trimmed(node_id@).len() == 0 || trimmed(
                    service_instance_id@,
                ).len() == 0) && is_status(
                    status,
                    Code::InvalidArgument,
                    "node_id and service_instance_id are required"@,
                ),
            },
    {
        identified(node_id, service_instance_id)
    }

    /// What follows a heartbeat that reported `roster`, once the registry has answered with its
    /// node and the CPU config for it; it has no answer for a node it does not know. The
    /// dual-heartbeat reporter matches the error text exactly.
    pub fn heartbeat(&self, answer: Option<(Node, String)>, roster: Vec<RosterEntry>) -> (r: Result<
        HeartbeatPlan,
        Status,
    >)
        ensures
            match answer {
                Some((node, cpu_config_json)) => r == Ok::<_, Status>(
                    HeartbeatPlan {
                        node,
                        roster,
                        cpu_config_json,
                        reap: self.orphan_reaper,
                        reconcile: self.binding_store,
                    },
                ),
                None => r matches Err(status) && is_status(
                    status,
                    Code::InvalidArgument,
                    "node is not in scheduler node list"@,
                ),
            },
    {
        match answer {
            Some((node, cpu_config_json)) => Ok(
                HeartbeatPlan {
                    node,
                    roster,
                    cpu_config_json,
                    reap: self.orphan_reaper,
                    reconcile: self.binding_store,
                },
            ),
            None => Err(Status::new(Code::InvalidArgument, "node is not in scheduler node list")),
        }
    }

    /// Ends a planned heartbeat with its reply, the CPU config: `reconciled` says whether the
    /// roster reached the binding store, where one is wired. A roster that did not shuts the
    /// warm-up gate, so that a lookup answers "unavailable" rather than absence until one lands;
    /// the heartbeat itself succeeds. What came of reaping has no say in it.
    pub fn heartbeat_settled(
        &mut self,
        plan: HeartbeatPlan,
        reconciled: bool,
        nodes: &Vec<NodeReading>,
        now: Timestamp,
    ) -> (r: Result<String, Status>)
        ensures
            r == Ok::<_, Status>(plan.cpu_config_json),
            final(self).warmup@ == if !old(self).binding_store {
                old(self).warmup@.after_report(nodes@, now@)
            } else if reconciled {
                old(self).warmup@.after_absorbed(plan.node.id@, nodes@, now@)
            } else {
                old(self).warmup@.after_not_absorbed(plan.node.id@, now@)
            },
            *final(self) == (NodeRegistryGrpcService {
                warmup: final(self).warmup,
                ..*old(self)
            }),
    {
        if !self.binding_store {
            // Nothing absorbs a roster here, so liveness is all the warm-up gate can wait on.
            self.warmup.reported_in(nodes, now);
        } else if reconciled {
            self.warmup.roster_absorbed(plan.node.id.as_str(), nodes, now);
        } else {
            self.warmup.roster_not_absorbed(plan.node.id.as_str(), now);
        }
        Ok(plan.cpu_config_json)
    }

    /// Reads one observed node.
    pub fn get_node(&self, observed: &NodeObservations, node_id: &str, cluster_id: &str) -> (r:
        Result<ObservedNode, Status>)
        ensures
            match r {
                Ok(node) => node_read(observed.nodes@, node_id@, cluster_id@) == Some(node),
                Err(status) => if trimmed(node_id@).len() == 0 {
                    is_status(status, Code::InvalidArgument, "node_id is required"@)
                } else {
                    node_read(observed.nodes@, node_id@, cluster_id@) is None && is_status(
                        status,
                        Code::NotFound,
                        "observed node not found"@,
                    )
                },
            },
    {
        if trim(node_id).as_str().is_empty() {
            return Err(Status::new(Code::InvalidArgument, "node_id is required"));
        }
        match observed_node(observed, node_id, cluster_id) {
            Some(node) => Ok(node),
            None => Err(Status::new(Code::NotFound, "observed node not found")),
        }
    }

    /// Admits a request to unregister a node, with aliases resolved.
    pub fn unregister_request(&self, node_id: &str, service_instance_id: &str) -> (r: Result<
        Unregistration,
        Status,
    >)
        ensures
            match r {
                Ok(u) => {
                    &&& trimmed(node_id@).len() > 0
                    &&& trimmed(service_instance_id@).len() > 0
                    &&& u.service_instance_id@ == trimmed(service_instance_id@)
                    &&& u.canonical_id@ == match self.registry.resolves(trimmed(node_id@)) {
                        Some(node) => node.id@,
                        None => trimmed(node_id@),
                    }
                },
                Err(status) => (trimmed(node_id@).len() == 0 || trimmed(
                    service_instance_id@,
                ).len() == 0) && is_status(
                    status,
                    Code::InvalidArgument,
                    "node_id and service_instance_id are required"@,
                ),
            },
    {
        match identified(node_id, service_instance_id) {
            Ok((node, service_instance_id)) => {
                let canonical_id = match self.registry.resolve(node.as_str()) {
                    Some(found) => found.id,
                    None => node,
                };
                Ok(Unregistration { canonical_id, service_instance_id })
            },
            Err(e) => Err(e),
        }
    }

    /// What follows once the registry has said whether the service instance was the node's. The
    /// identity is then already removed, so cleanup is best-effort: the node is reconciled by its
    /// identity alone, with nothing on its roster, and its artifacts are forgotten.
    pub fn unregister_node(&self, unregistration: &Unregistration, instance_matched: bool) -> (r:
        Result<UnregisterCleanup, Status>)
        ensures
            match r {
                Ok(cleanup) => {
                    &&& instance_matched
                    &&& cleanup.reconcile is Some <==> self.binding_store
                    &&& cleanup.reconcile matches Some((node, roster)) ==> node.id@
                        == unregistration.canonical_id@ && node.endpoint@.len() == 0
                        && node.pod_name@.len() == 0 && roster@.len() == 0
                    &&& cleanup.forget is Some <==> self.artifact_store
                    &&& cleanup.forget matches Some(id) ==> id@ == unregistration.canonical_id@
                },
                Err(status) => !instance_matched && is_status(
                    status,
                    Code::FailedPrecondition,
                    "service instance mismatch"@,
                ),
            },
    {
        if !instance_matched {
            return Err(Status::new(Code::FailedPrecondition, "service instance mismatch"));
        }
        let reconcile = if self.binding_store {
            let node = Node {
                id: unregistration.canonical_id.clone(),
                endpoint: String::new(),
                pod_name: String::new(),
            };
            Some((node, Vec::new()))
        } else {
            None
        };
        let forget = if self.artifact_store {
            Some(unregistration.canonical_id.clone())
        } else {
            None
        };
        Ok(UnregisterCleanup { reconcile, forget })
    }

    /// Ends a node's removal: `reconciled` says whether the binding store took the empty roster,
    /// where one is wired. The removal succeeds either way.
    pub fn unregister_settled(reconciled: Option<bool>) -> (r: Result<Unregistered, Status>)
        ensures
            r == Ok::<_, Status>(Unregistered { bindings_left: reconciled == Some(false) }),
    {
        let bindings_left = match reconciled {
            Some(reconciled) => !reconciled,
            None => false,
        };
        Ok(Unregistered { bindings_left })
    }

    /// Decides what is done with each of the reported events, in order.
    pub fn report_sandbox_event(&self, events: &Vec<SandboxEvent>) -> (r: Result<
        Vec<EventAction>,
        Status,
    >)
        ensures
            match r {
                Ok(actions) => {
                    &&& self.binding_store
                    &&& actions@.len() == events@.len()
                    &&& forall|i: int|
                        0 <= i < events@.len() ==> is_event_action(
                            events@[i],
                            #[trigger] actions@[i],
                        )
                },
                Err(status) => !self.binding_store && is_status(
                    status,
                    Code::Unimplemented,
                    not_wired(EVENT_NOT_WIRED@),
                ),
            },
    {
        if !self.binding_store {
            return Err(Status::joined(Code::Unimplemented, EVENT_NOT_WIRED, NOT_WIRED));
        }
        let mut actions: Vec<EventAction> = Vec::new();
        let mut i: usize = 0;
        while i < events.len()
            invariant
                i <= events@.len(),
                actions@.len() == i,
                forall|j: int| 0 <= j < i ==> is_event_action(events@[j], #[trigger] actions@[j]),
            decreases events@.len() - i,
        {
            actions.push(Self::event_action(&events[i]));
            i = i + 1;
        }
        Ok(actions)
    }

    /// Validates a P2P artifact association to record.
    pub fn record_p2p_artifact(
        &self,
        cluster_id: &str,
        backend: &str,
        key: &str,
        node_id: &str,
    ) -> (r: Result<ArtifactFields, Status>)
        ensures
            if self.artifact_store {
                artifact_answer(self, cluster_id@, backend@, key@, Some(node_id@), r)
            } else {
                r matches Err(status) && is_status(
                    status,
                    Code::Unimplemented,
                    not_wired(RECORD_ARTIFACT_NOT_WIRED@),
                )
            },
    {
        if !self.artifact_store {
            return Err(Status::joined(Code::Unimplemented, RECORD_ARTIFACT_NOT_WIRED, NOT_WIRED));
        }
        self.validate_p2p_artifact_fields(cluster_id, backend, key, Some(node_id))
    }

    /// Validates a P2P artifact association to forget.
    pub fn forget_p2p_artifact(
        &self,
        cluster_id: &str,
        backend: &str,
        key: &str,
        node_id: &str,
    ) -> (r: Result<ArtifactFields, Status>)
        ensures
            if self.artifact_store {
                artifact_answer(self, cluster_id@, backend@, key@, Some(node_id@), r)
            } else {
                r matches Err(status) && is_status(
                    status,
                    Code::Unimplemented,
                    not_wired(FORGET_ARTIFACT_NOT_WIRED@),
                )
            },
    {
        if !self.artifact_store {
            return Err(Status::joined(Code::Unimplemented, FORGET_ARTIFACT_NOT_WIRED, NOT_WIRED));
        }
        self.validate_p2p_artifact_fields(cluster_id, backend, key, Some(node_id))
    }

    /// Validates a P2P artifact lookup, and says what the live peers are looked up with.
    pub fn lookup_p2p_artifact(
        &self,
        cluster_id: &str,
        backend: &str,
        key: &str,
        exclude_node_id: &str,
    ) -> (r: Result<ArtifactLookup, Status>)
        ensures
            if self.artifact_store {
                match r {
                    Ok(lookup) => artifact_answer(
                        self,
                        cluster_id@,
                        backend@,
                        key@,
                        None,
                        Ok(lookup.fields),
                    ) && lookup.exclude_node_id@ == trimmed(exclude_node_id@) && lookup.limit
                        == ARTIFACT_PEER_LIMIT && lookup.limit == 0,
                    Err(status) => artifact_answer(
                        self,
                        cluster_id@,
                        backend@,
                        key@,
                        None,
                        Err(status),
                    ),
                }
            } else {
                r matches Err(status) && is_status(
                    status,
                    Code::Unimplemented,
                    not_wired(LOOKUP_ARTIFACT_NOT_WIRED@),
                )
            },
    {
        if !self.artifact_store {
            return Err(Status::joined(Code::Unimplemented, LOOKUP_ARTIFACT_NOT_WIRED, NOT_WIRED));
        }
        match self.validate_p2p_artifact_fields(cluster_id, backend, key, None) {
            Ok(fields) => Ok(
                ArtifactLookup {
                    fields,
                    exclude_node_id: trim(exclude_node_id),
                    limit: ARTIFACT_PEER_LIMIT,
                },
            ),
            Err(e) => Err(e),
        }
    }

    /// The metric label of an event type.
    pub fn sandbox_event_type_label(event_type: SandboxEventType) -> (r: &'static str)
        ensures
            r@ == event_label(event_type),
    {
        match event_type {
            SandboxEventType::Create => "create",
            SandboxEventType::Delete => "delete",
            SandboxEventType::Pause => "pause",
            SandboxEventType::Resume => "resume",
            SandboxEventType::Fork => "fork",
            SandboxEventType::Unspecified => "other",
        }
    }

    /// Decides what is done with an event: a pause or a delete removes the projection of its own
    /// incarnation, and others are observed.
    pub fn event_action(event: &SandboxEvent) -> (r: EventAction)
        ensures
            is_event_action(*event, r),
    {
        match event.event_type {
            SandboxEventType::Pause | SandboxEventType::Delete => Self::apply_projection_delete(event),
            _ => EventAction::Record { outcome: "observed_only" },
        }
    }

    /// The incarnation-guarded projection delete of an event.
    ///
    /// A fallback behind the teardown's own
    /// [`forget_assignment`](Self::forget_assignment): it runs for a sandbox whose
    /// teardown never reached that call.
    pub fn apply_projection_delete(event: &SandboxEvent) -> (r: EventAction)
        ensures
            if trimmed(event.sandbox_id@).len() == 0 {
                r matches EventAction::Record { outcome } && outcome@ == "ignored_no_sandbox"@
            } else if event.execution_id@.len() == 0 {
                r matches EventAction::Record { outcome } && outcome@ == "ignored_unknown_execution"@
            } else {
                r matches EventAction::Delete(d) && d.sandbox_id@ == trimmed(event.sandbox_id@)
                    && d.execution_id@ == event.execution_id@
            },
    {
        let sandbox_id = trim(event.sandbox_id.as_str());
        if sandbox_id.as_str().is_empty() {
            return EventAction::Record { outcome: "ignored_no_sandbox" };
        }
        if event.execution_id.as_str().is_empty() {
            return EventAction::Record { outcome: "ignored_unknown_execution" };
        }
        EventAction::Delete(BindingDelete { sandbox_id, execution_id: event.execution_id.clone() })
    }

    /// The response to a placement request, from the node that was selected.
    pub fn schedule(&self, selected: Result<Node, SelectNodeError>) -> (r: Result<WireNode, Status>)
        ensures
            match selected {
                Ok(node) => r == Ok::<_, Status>(
                    WireNode { node_id: node.id, endpoint: node.endpoint },
                ),
                Err(SelectNodeError::NoEgressBrokerNode) => r matches Err(status) && is_status(
                    status,
                    Code::FailedPrecondition,
                    "no schedulable node reports a usable egress broker"@,
                ),
                Err(SelectNodeError::NoNodes) => r matches Err(status) && is_status(
                    status,
                    Code::Unavailable,
                    "no nodes available"@,
                ),
            },
    {
        match selected {
            Ok(node) => Ok(WireNode { node_id: node.id, endpoint: node.endpoint }),
            Err(SelectNodeError::NoEgressBrokerNode) => Err(
                Status::new(
                    Code::FailedPrecondition,
                    "no schedulable node reports a usable egress broker",
                ),
            ),
            Err(SelectNodeError::NoNodes) => Err(Status::new(Code::Unavailable, "no nodes available")),
        }
    }
}

/// `r` answers a request with these P2P artifact fields.
pub open spec fn artifact_answer<R: NodeRegistry>(
    service: &NodeRegistryGrpcService<R>,
    cluster_id: Seq<char>,
    backend: Seq<char>,
    key: Seq<char>,
    node_id: Option<Seq<char>>,
    r: Result<ArtifactFields, Status>,
) -> bool {
    let incomplete = trimmed(cluster_id).len() == 0 || trimmed(backend).len() == 0 || trimmed(
        key,
    ).len() == 0;
    let unnamed = node_id matches Some(raw) && trimmed(raw).len() == 0;
    match r {
        Ok(fields) => {
            &&& !incomplete && !unnamed
            &&& fields.cluster_id@ == trimmed(cluster_id)
            &&& fields.backend@ == trimmed(backend)
            &&& fields.key@ == trimmed(key)
            &&& fields.node_id@ == service.artifact_node(node_id)
        },
        Err(status) => if incomplete {
            is_status(status, Code::InvalidArgument, "cluster_id, backend, and key are required"@)
        } else {
            unnamed && is_status(status, Code::InvalidArgument, "node_id is required"@)
        },
    }
}

/// A required field without white space around it.
fn required(field: &str, missing: &str) -> (r: Result<String, Status>)
    ensures
        match r {
            Ok(v) => v@ == trimmed(field@) && v@.len() > 0,
            Err(status) => trimmed(field@).len() == 0 && is_status(
                status,
                Code::InvalidArgument,
                missing@,
            ),
        },
{
    let v = trim(field);
    if v.as_str().is_empty() {
        Err(Status::new(Code::InvalidArgument, missing))
    } else {
        Ok(v)
    }
}

/// The node and the service instance that a request speaks for.
fn identified(node_id: &str, service_instance_id: &str) -> (r: Result<(String, String), Status>)
    ensures
        match r {
            Ok((node, instance)) => node@ == trimmed(node_id@) && instance@ == trimmed(
                service_instance_id@,
            ) && node@.len() > 0 && instance@.len() > 0,
            Err(status) => (trimmed(node_id@).len() == 0 || trimmed(service_instance_id@).len()
                == 0) && is_status(
                status,
                Code::InvalidArgument,
                "node_id and service_instance_id are required"@,
            ),
        },
{
    let node = trim(node_id);
    let instance = trim(service_instance_id);
    if node.as_str().is_empty() || instance.as_str().is_empty() {
        Err(Status::new(Code::InvalidArgument, "node_id and service_instance_id are required"))
    } else {
        Ok((node, instance))
    }
}

/// The response to a lookup.
pub fn lookup_response(outcome: LookupOutcome) -> (r: Result<LookupAnswer, Status>)
    ensures
        match outcome {
            LookupOutcome::Answer(answer) => r == Ok::<_, Status>(answer),
            LookupOutcome::NotFound => r matches Err(status) && is_status(
                status,
                Code::NotFound,
                "sandbox assignment not found"@,
            ),
            LookupOutcome::Unavailable(_, message) => r matches Err(status) && is_status(
                status,
                Code::Unavailable,
                message@,
            ),
        },
{
    match outcome {
        LookupOutcome::Answer(answer) => Ok(answer),
        LookupOutcome::NotFound => Err(Status::new(Code::NotFound, "sandbox assignment not found")),
        LookupOutcome::Unavailable(_, message) => Err(Status { code: Code::Unavailable, message }),
    }
}

/// The response to a request that the binding store was asked about: its answer, or nothing where
/// the store failed.
pub fn store_response<T>(answer: Option<T>) -> (r: Result<T, Status>)
    ensures
        match answer {
            Some(value) => r == Ok::<_, Status>(value),
            None => r matches Err(status) && is_status(
                status,
                Code::Unavailable,
                "binding store unavailable"@,
            ),
        },
{
    match answer {
        Some(value) => Ok(value),
        None => Err(Status::new(Code::Unavailable, "binding store unavailable")),
    }
}

/// The metric label of an event type.
pub open spec fn event_label(event_type: SandboxEventType) -> Seq<char> {
    match event_type {
        SandboxEventType::Create => "create"@,
        SandboxEventType::Delete => "delete"@,
        SandboxEventType::Pause => "pause"@,
        SandboxEventType::Resume => "resume"@,
        SandboxEventType::Fork => "fork"@,
        SandboxEventType::Unspecified => "other"@,
    }
}

/// Whether an event says that its sandbox is routed to no more.
pub open spec fn removes_projection(event_type: SandboxEventType) -> bool {
    event_type is Pause || event_type is Delete
}

/// `a` is what is done with `event`.
pub open spec fn is_event_action(event: SandboxEvent, a: EventAction) -> bool {
    if !removes_projection(event.event_type) {
        a matches EventAction::Record { outcome } && outcome@ == "observed_only"@
    } else if trimmed(event.sandbox_id@).len() == 0 {
        a matches EventAction::Record { outcome } && outcome@ == "ignored_no_sandbox"@
    } else if event.execution_id@.len() == 0 {
        a matches EventAction::Record { outcome } && outcome@ == "ignored_unknown_execution"@
    } else {
        a matches EventAction::Delete(d) && d.sandbox_id@ == trimmed(event.sandbox_id@)
            && d.execution_id@ == event.execution_id@
    }
}

/// Whether a projection delete removed the projection; a store that failed removed nothing.
pub fn projection_deleted(outcome: Option<BindingDeleteOutcome>) -> (r: bool)
    ensures
        r == (outcome == Some(BindingDeleteOutcome::Deleted) || outcome == Some(
            BindingDeleteOutcome::DeletedUnknownIncumbent,
        )),
{
    match outcome {
        Some(BindingDeleteOutcome::Deleted) | Some(
            BindingDeleteOutcome::DeletedUnknownIncumbent,
        ) => true,
        _ => false,
    }
}

/// The placement preference and the exclusions of a request: those of a sandbox that does not run
/// yet, and none otherwise.
pub fn schedule_request(hint: Option<&ScheduleRequestHint>) -> (r: (String, Vec<String>))
    ensures
        match hint {
            Some(ScheduleRequestHint::NewSandbox(new)) => r.0@ == new.preferred_node_id@ && r.1@
                == new.excluded_node_ids@,
            _ => r.0@.len() == 0 && r.1@.len() == 0,
        },
{
    match hint {
        Some(ScheduleRequestHint::NewSandbox(new)) => {
            let mut excluded: Vec<String> = Vec::new();
            let mut i: usize = 0;
            while i < new.excluded_node_ids.len()
                invariant
                    i <= new.excluded_node_ids@.len(),
                    excluded@ =~= new.excluded_node_ids@.take(i as int),
                decreases new.excluded_node_ids@.len() - i,
            {
                excluded.push(new.excluded_node_ids[i].clone());
                i = i + 1;
            }
            proof {
                assert(new.excluded_node_ids@.take(i as int) =~= new.excluded_node_ids@);
            }
            (new.preferred_node_id.clone(), excluded)
        },
        _ => (String::new(), Vec::new()),
    }
}

/// Begins the refusal of a lookup.
pub const LOOKUP_NOT_WIRED: &'static str = "looking up a sandbox needs a binding store, and this deployment has none wired: ";

/// Begins the refusal to record a projection.
pub const RECORD_NOT_WIRED: &'static str = "recording a sandbox's node needs a binding store, and this deployment has none wired: ";

/// Begins the refusal of a reservation.
pub const RESERVE_NOT_WIRED: &'static str = "reserving an assignment needs a binding store, and this deployment has none wired: ";

/// Begins the refusal to retire a projection.
pub const FORGET_NOT_WIRED: &'static str = "retiring a routing projection needs a binding store, and this deployment has none wired: ";

/// Begins the refusal to release a reservation.
pub const RELEASE_NOT_WIRED: &'static str = "releasing a reservation needs a binding store, and this deployment has none wired: ";

/// Begins the refusal of an event report.
pub const EVENT_NOT_WIRED: &'static str = "ReportSandboxEvent needs a binding store, and this deployment has none wired: ";

/// Begins the refusal to record a P2P artifact.
pub const RECORD_ARTIFACT_NOT_WIRED: &'static str = "RecordP2pArtifact needs an ArtifactStore, and this deployment has none wired: ";

/// Begins the refusal to forget a P2P artifact.
pub const FORGET_ARTIFACT_NOT_WIRED: &'static str = "ForgetP2pArtifact needs an ArtifactStore, and this deployment has none wired: ";

/// Begins the refusal to look up a P2P artifact.
pub const LOOKUP_ARTIFACT_NOT_WIRED: &'static str = "LookupP2pArtifact needs an ArtifactStore, and this deployment has none wired: ";

// ---- metrics -----------------------------------------------------------------

/// The metric label of a node status.
pub open spec fn status_label(status: NodeStatus) -> Seq<char> {
    match status {
        NodeStatus::Ready => "ready"@,
        NodeStatus::Connecting => "connecting"@,
        NodeStatus::Unhealthy => "unhealthy"@,
        NodeStatus::Lingering => "lingering"@,
        NodeStatus::Draining => "draining"@,
        NodeStatus::Unspecified => "unspecified"@,
    }
}

/// The metric label of a node status.
pub fn node_status_label(status: NodeStatus) -> (r: &'static str)
    ensures
        r@ == status_label(status),
{
    match status {
        NodeStatus::Ready => "ready",
        NodeStatus::Connecting => "connecting",
        NodeStatus::Unhealthy => "unhealthy",
        NodeStatus::Lingering => "lingering",
        NodeStatus::Draining => "draining",
        NodeStatus::Unspecified => "unspecified",
    }
}

/// The metric label of a broker state; `unknown` is what a node reporting a value this build does
/// not know reads as.
pub open spec fn broker_label(state: EgressBrokerState) -> Seq<char> {
    match state {
        EgressBrokerState::Disabled => "disabled"@,
        EgressBrokerState::Embedded => "embedded"@,
        EgressBrokerState::LocalOk => "local_ok"@,
        EgressBrokerState::LocalUnreachable => "local_unreachable"@,
        EgressBrokerState::Unspecified => "unknown"@,
    }
}

/// The metric label of a broker state.
pub fn egress_broker_label(state: EgressBrokerState) -> (r: &'static str)
    ensures
        r@ == broker_label(state),
{
    match state {
        EgressBrokerState::Disabled => "disabled",
        EgressBrokerState::Embedded => "embedded",
        EgressBrokerState::LocalOk => "local_ok",
        EgressBrokerState::LocalUnreachable => "local_unreachable",
        EgressBrokerState::Unspecified => "unknown",
    }
}

/// Every broker state the gauge carries a series for, in order.
pub open spec fn broker_states() -> Seq<EgressBrokerState> {
    seq![
        EgressBrokerState::Disabled,
        EgressBrokerState::Embedded,
        EgressBrokerState::LocalOk,
        EgressBrokerState::LocalUnreachable,
        EgressBrokerState::Unspecified,
    ]
}

/// The status that a node counts under; a node without a report counts as unspecified.
pub open spec fn counted_status(n: ObservedNode) -> NodeStatus {
    match n.snapshot {
        Some(s) => s.status,
        None => NodeStatus::Unspecified,
    }
}

/// How many of the first `k` nodes count under the status.
pub open spec fn status_count(nodes: Seq<ObservedNode>, status: NodeStatus, k: int) -> nat
    decreases k,
{
    if k <= 0 {
        0
    } else {
        status_count(nodes, status, k - 1) + if counted_status(nodes[k - 1]) == status {
            1nat
        } else {
            0nat
        }
    }
}

/// How many observed nodes there are of each status. Every status has its count.
#[derive(Debug, Clone, Copy, PartialEq, Eq, Structural)]
pub struct ObservedCounts {
    pub ready: u32,
    pub connecting: u32,
    pub unhealthy: u32,
    pub lingering: u32,
    pub draining: u32,
    pub unspecified: u32,
}

/// Counts the observed nodes of each status, for the observed-node gauge.
pub fn observed_node_counts(nodes: &Vec<ObservedNode>) -> (r: ObservedCounts)
    requires
        nodes@.len() <= u32::MAX,
    ensures
        r.ready == status_count(nodes@, NodeStatus::Ready, nodes@.len() as int),
        r.connecting == status_count(nodes@, NodeStatus::Connecting, nodes@.len() as int),
        r.unhealthy == status_count(nodes@, NodeStatus::Unhealthy, nodes@.len() as int),
        r.lingering == status_count(nodes@, NodeStatus::Lingering, nodes@.len() as int),
        r.draining == status_count(nodes@, NodeStatus::Draining, nodes@.len() as int),
        r.unspecified == status_count(nodes@, NodeStatus::Unspecified, nodes@.len() as int),
        r.ready + r.connecting + r.unhealthy + r.lingering + r.draining + r.unspecified
            == nodes@.len(),
{
    let mut c = ObservedCounts {
        ready: 0,
        connecting: 0,
        unhealthy: 0,
        lingering: 0,
        draining: 0,
        unspecified: 0,
    };
    let mut i: usize = 0;
    while i < nodes.len()
        invariant
            i <= nodes@.len(),
            nodes@.len() <= u32::MAX,
            c.ready == status_count(nodes@, NodeStatus::Ready, i as int),
            c.connecting == status_count(nodes@, NodeStatus::Connecting, i as int),
            c.unhealthy == status_count(nodes@, NodeStatus::Unhealthy, i as int),
            c.lingering == status_count(nodes@, NodeStatus::Lingering, i as int),
            c.draining == status_count(nodes@, NodeStatus::Draining, i as int),
            c.unspecified == status_count(nodes@, NodeStatus::Unspecified, i as int),
            c.ready + c.connecting + c.unhealthy + c.lingering + c.draining + c.unspecified == i,
        decreases nodes@.len() - i,
    {
        let status = match nodes[i].snapshot {
            Some(s) => s.status,
            None => NodeStatus::Unspecified,
        };
        match status {
            NodeStatus::Ready => {
                c.ready = c.ready + 1;
            },
            NodeStatus::Connecting => {
                c.connecting = c.connecting + 1;
            },
            NodeStatus::Unhealthy => {
                c.unhealthy = c.unhealthy + 1;
            },
            NodeStatus::Lingering => {
                c.lingering = c.lingering + 1;
            },
            NodeStatus::Draining => {
                c.draining = c.draining + 1;
            },
            NodeStatus::Unspecified => {
                c.unspecified = c.unspecified + 1;
            },
        }
        i = i + 1;
    }
    c
}

/// One series of the broker gauge.
#[derive(Debug)]
pub struct BrokerSeries {
    pub node_id: String,
    pub state: &'static str,
    /// Whether the node reports this state.
    pub set: bool,
}

/// `s` is the series of `node` for `state`.
pub open spec fn is_broker_series(s: BrokerSeries, node: ObservedNode, state: EgressBrokerState) -> bool {
    &&& s.node_id@ == node.node_id@
    &&& s.state@ == broker_label(state)
    &&& s.set == (node.snapshot matches Some(snapshot) && snapshot.egress_broker == state)
}

fn broker_series(node: &ObservedNode, state: EgressBrokerState) -> (r: BrokerSeries)
    ensures
        is_broker_series(r, *node, state),
{
    let set: bool = match node.snapshot {
        Some(snapshot) => snapshot.egress_broker == state,
        None => false,
    };
    BrokerSeries { node_id: node.node_id.clone(), state: egress_broker_label(state), set }
}

/// One series per node and broker state, so a node that changes
/// state does not leave the state it left behind reading 1.
pub fn egress_broker_series(nodes: &Vec<ObservedNode>) -> (r: Vec<BrokerSeries>)
    ensures
        r@.len() == nodes@.len() * 5,
        forall|i: int, j: int|
            0 <= i < nodes@.len() && 0 <= j < 5 ==> is_broker_series(
                #[trigger] r@[i * 5 + j],
                nodes@[i],
                broker_states()[j],
            ),
{
    let mut out: Vec<BrokerSeries> = Vec::new();
    let mut k: usize = 0;
    while k < nodes.len()
        invariant
            k <= nodes@.len(),
            out@.len() == k * 5,
            forall|i: int, j: int|
                0 <= i < k && 0 <= j < 5 ==> is_broker_series(
                    #[trigger] out@[i * 5 + j],
                    nodes@[i],
                    broker_states()[j],
                ),
        decreases nodes@.len() - k,
    {
        let node = &nodes[k];
        let ghost before = out@;
        out.push(broker_series(node, EgressBrokerState::Disabled));
        out.push(broker_series(node, EgressBrokerState::Embedded));
        out.push(broker_series(node, EgressBrokerState::LocalOk));
        out.push(broker_series(node, EgressBrokerState::LocalUnreachable));
        out.push(broker_series(node, EgressBrokerState::Unspecified));
        proof {
            assert forall|i: int, j: int| 0 <= i < k + 1 && 0 <= j < 5 implies is_broker_series(
                #[trigger] out@[i * 5 + j],
                nodes@[i],
                broker_states()[j],
            ) by {
                if i < k {
                    assert(out@[i * 5 + j] == before[i * 5 + j]);
                }
            }
        }
        k = k + 1;
    }
    out
}

// ---- laws --------------------------------------------------------------------

/// The resolved TTL never exceeds what the node offered, nor a configured ceiling, and is zero, the
/// store's default, unless projections are authoritative.
pub proof fn projection_ttls_are_bounded(authoritative: bool, max: int, raw: int)
    requires
        max >= 0,
        raw >= 0,
    ensures
        projection_ttl(authoritative, max, raw).0 <= raw,
        max > 0 ==> projection_ttl(authoritative, max, raw).0 <= max,
        !authoritative ==> projection_ttl(authoritative, max, raw).0 == 0,
        authoritative && raw > 0 ==> projection_ttl(authoritative, max, raw).0 > 0,
{
}

/// Of the series of one node at most one is set.
pub proof fn one_broker_state_at_a_time(
    a: BrokerSeries,
    b: BrokerSeries,
    node: ObservedNode,
    i: int,
    j: int,
)
    requires
        0 <= i < j < 5,
        is_broker_series(a, node, broker_states()[i]),
        is_broker_series(b, node, broker_states()[j]),
    ensures
        !(a.set && b.set),
        node.snapshot is None ==> !a.set && !b.set,
{
}

/// A failed absorption is answered by unavailability, not absence: after a heartbeat whose roster
/// did not reach the binding store, the warm-up gate is shut while the node is discovered and still
/// reports, for one window at least.
pub proof fn failed_reconciles_withhold_absence(
    before: crate::node_registry::warmup::GateModel,
    node_id: Seq<char>,
    nodes: Seq<NodeReading>,
    i: int,
    failed_at: int,
    now: int,
)
    requires
        0 <= i < nodes.len(),
        nodes[i].node_id@ == node_id,
        crate::node_registry::warmup::still_reporting(nodes[i]),
        failed_at <= now < failed_at + before.window,
    ensures
        !before.after_not_absorbed(node_id, failed_at).open(nodes, now),
{
    crate::node_registry::warmup::failure_shuts_the_gate(before, node_id, failed_at, nodes, i, now);
}

} // verus!
