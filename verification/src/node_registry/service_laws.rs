//! What holds of the scheduler service's answers, said of the requests themselves.

use crate::node_registry::grpc_service::{
    artifact_answer, broker_label, broker_states, counted_status, event_label, is_broker_series,
    is_event_action, not_wired, projection_ttl, status_count, status_label, ttl_source_label,
    ArtifactFields, BindingState, BindingWrite, BrokerSeries, EventAction, NodeRegistryGrpcService,
    SandboxEvent, SandboxEventType, TtlSource, EVENT_NOT_WIRED, FORGET_ARTIFACT_NOT_WIRED,
    LOOKUP_ARTIFACT_NOT_WIRED, LOOKUP_NOT_WIRED, RECORD_ARTIFACT_NOT_WIRED,
};
use crate::node_registry::registry::{first_with_id, ListedNodes, NodeRegistry};
use crate::node_registry::status::{
    code_description, code_number, is_status, status_text, Code, Status,
};
use crate::node_registry::types::{EgressBrokerState, Node, NodeStatus, ObservedNode};
use crate::text::{quoted_text, trimmed};
use vstd::prelude::*;
use vstd::string::*;

verus! {

// ---- times to live -----------------------------------------------------------

/// A projection lives as long as its node offered, up to the ceiling where there is one; it gets
/// the store's default where the node offered nothing or projections are not authoritative.
pub proof fn projections_live_as_offered(authoritative: bool, max: int, raw: int)
    requires
        max >= 0,
        raw >= 0,
    ensures
        !authoritative ==> projection_ttl(authoritative, max, raw) == (0int, TtlSource::Default),
        raw == 0 ==> projection_ttl(authoritative, max, raw) == (0int, TtlSource::Default),
        authoritative && raw > 0 && max == 0 ==> projection_ttl(authoritative, max, raw) == (
            raw,
            TtlSource::Node,
        ),
        authoritative && 0 < raw <= max ==> projection_ttl(authoritative, max, raw) == (
            raw,
            TtlSource::Node,
        ),
        authoritative && 0 < max < raw ==> projection_ttl(authoritative, max, raw) == (
            max,
            TtlSource::Clamped,
        ),
{
}

/// A node that offers more never gets less, and resolving what was resolved changes nothing.
pub proof fn offers_are_monotone(authoritative: bool, max: int, less: int, more: int)
    requires
        max >= 0,
        0 <= less <= more,
    ensures
        projection_ttl(authoritative, max, less).0 <= projection_ttl(authoritative, max, more).0,
        projection_ttl(authoritative, max, projection_ttl(authoritative, max, more).0).0
            == projection_ttl(authoritative, max, more).0,
{
}

// ---- bindings ----------------------------------------------------------------

/// A projection is recorded exactly where a store is wired, the sandbox and the node are named and
/// discovery lists the node. A service without a store says so before it looks at the request, and
/// each fault of a request is told in the order of its fields.
pub proof fn projections_need_a_listed_node<R: NodeRegistry>(
    s: NodeRegistryGrpcService<R>,
    sandbox_id: Seq<char>,
    node_id: Seq<char>,
)
    ensures
        s.projection_refusal(sandbox_id, node_id) is None <==> s.binding_store && trimmed(
            sandbox_id,
        ).len() > 0 && trimmed(node_id).len() > 0 && s.registry.resolves(trimmed(node_id)) is Some,
        !s.binding_store ==> s.projection_refusal(sandbox_id, node_id) == Some(
            (
                Code::Unimplemented,
                "recording a sandbox's node needs a binding store, and this deployment has none wired: "@
                    + "an assembled aenv-api wires every optional dependency, so a caller reaching this arm is talking to an in-process or test build"@,
            ),
        ),
        s.binding_store && trimmed(sandbox_id).len() == 0 ==> s.projection_refusal(
            sandbox_id,
            node_id,
        ) == Some((Code::InvalidArgument, "sandbox_id is required"@)),
        s.binding_store && trimmed(sandbox_id).len() > 0 && trimmed(node_id).len() == 0
            ==> s.projection_refusal(sandbox_id, node_id) == Some(
            (Code::InvalidArgument, "node_id is required"@),
        ),
        s.binding_store && trimmed(sandbox_id).len() > 0 && trimmed(node_id).len() > 0
            && s.registry.resolves(trimmed(node_id)) is None ==> s.projection_refusal(
            sandbox_id,
            node_id,
        ) == Some((Code::InvalidArgument, "node is not in scheduler node list"@)),
{
}

/// A reservation is made exactly where a store is wired, the sandbox is named and discovery lists
/// the node.
pub proof fn reservations_need_a_listed_node<R: NodeRegistry>(
    s: NodeRegistryGrpcService<R>,
    sandbox_id: Seq<char>,
    node_id: Seq<char>,
)
    ensures
        s.reservation_refusal(sandbox_id, node_id) is None <==> s.binding_store && trimmed(
            sandbox_id,
        ).len() > 0 && s.registry.resolves(trimmed(node_id)) is Some,
        !s.binding_store ==> s.reservation_refusal(sandbox_id, node_id) == Some(
            (
                Code::Unimplemented,
                "reserving an assignment needs a binding store, and this deployment has none wired: "@
                    + "an assembled aenv-api wires every optional dependency, so a caller reaching this arm is talking to an in-process or test build"@,
            ),
        ),
        s.binding_store && trimmed(sandbox_id).len() == 0 ==> s.reservation_refusal(
            sandbox_id,
            node_id,
        ) == Some((Code::InvalidArgument, "sandbox_id is required"@)),
        s.binding_store && trimmed(sandbox_id).len() > 0 && s.registry.resolves(
            trimmed(node_id),
        ) is None ==> s.reservation_refusal(sandbox_id, node_id) == Some(
            (Code::InvalidArgument, "node is not in scheduler node list"@),
        ),
{
}

/// A projection is retired only for a named sandbox and a known execution; a reservation is
/// released for a named sandbox, whatever its execution.
pub proof fn retirements_name_their_execution<R: NodeRegistry>(
    s: NodeRegistryGrpcService<R>,
    sandbox_id: Seq<char>,
    execution: Seq<char>,
)
    ensures
        s.retirement_refusal(sandbox_id, execution) is None <==> s.binding_store && trimmed(
            sandbox_id,
        ).len() > 0 && execution.len() > 0,
        !s.binding_store ==> s.retirement_refusal(sandbox_id, execution) == Some(
            (
                Code::Unimplemented,
                "retiring a routing projection needs a binding store, and this deployment has none wired: "@
                    + "an assembled aenv-api wires every optional dependency, so a caller reaching this arm is talking to an in-process or test build"@,
            ),
        ),
        s.binding_store && trimmed(sandbox_id).len() == 0 ==> s.retirement_refusal(
            sandbox_id,
            execution,
        ) == Some((Code::InvalidArgument, "sandbox_id is required"@)),
        s.binding_store && trimmed(sandbox_id).len() > 0 && execution.len() == 0
            ==> s.retirement_refusal(sandbox_id, execution) == Some(
            (Code::InvalidArgument, "execution_id is required"@),
        ),
        s.release_refusal(sandbox_id) is None <==> s.binding_store && trimmed(sandbox_id).len() > 0,
        !s.binding_store ==> s.release_refusal(sandbox_id) == Some(
            (
                Code::Unimplemented,
                "releasing a reservation needs a binding store, and this deployment has none wired: "@
                    + "an assembled aenv-api wires every optional dependency, so a caller reaching this arm is talking to an in-process or test build"@,
            ),
        ),
        s.binding_store && trimmed(sandbox_id).len() == 0 ==> s.release_refusal(sandbox_id) == Some(
            (Code::InvalidArgument, "sandbox_id is required"@),
        ),
{
}

/// What a service says of a dependency that it has none of.
pub proof fn missing_dependencies_are_named()
    ensures
        not_wired(LOOKUP_NOT_WIRED@)
            == "looking up a sandbox needs a binding store, and this deployment has none wired: "@
            + "an assembled aenv-api wires every optional dependency, so a caller reaching this arm is talking to an in-process or test build"@,
        not_wired(EVENT_NOT_WIRED@)
            == "ReportSandboxEvent needs a binding store, and this deployment has none wired: "@
            + "an assembled aenv-api wires every optional dependency, so a caller reaching this arm is talking to an in-process or test build"@,
        not_wired(RECORD_ARTIFACT_NOT_WIRED@)
            == "RecordP2pArtifact needs an ArtifactStore, and this deployment has none wired: "@
            + "an assembled aenv-api wires every optional dependency, so a caller reaching this arm is talking to an in-process or test build"@,
        not_wired(FORGET_ARTIFACT_NOT_WIRED@)
            == "ForgetP2pArtifact needs an ArtifactStore, and this deployment has none wired: "@
            + "an assembled aenv-api wires every optional dependency, so a caller reaching this arm is talking to an in-process or test build"@,
        not_wired(LOOKUP_ARTIFACT_NOT_WIRED@)
            == "LookupP2pArtifact needs an ArtifactStore, and this deployment has none wired: "@
            + "an assembled aenv-api wires every optional dependency, so a caller reaching this arm is talking to an in-process or test build"@,
{
}

/// A recorded projection is confirmed, on discovery's node for the one that the request names,
/// under the execution of the request, and lives as long as the node offered: its seconds counted
/// in nanoseconds, up to the ceiling where there is one.
pub proof fn projections_are_confirmed_on_the_listed_node<R: NodeRegistry>(
    s: NodeRegistryGrpcService<R>,
    w: BindingWrite,
    sandbox_id: Seq<char>,
    node_id: Seq<char>,
    execution: Seq<char>,
    ttl_secs: u32,
)
    requires
        s.is_projection(w, sandbox_id, node_id, execution, ttl_secs),
        s.max_projection_ttl@ >= 0,
    ensures
        w.sandbox_id@ == trimmed(sandbox_id),
        s.registry.resolves(trimmed(node_id)) == Some(w.binding.node),
        w.binding.execution_id@ == execution,
        w.binding.state == BindingState::Confirmed,
        !s.projection_authoritative || ttl_secs == 0 ==> w.binding.projection_ttl@ == 0
            && w.ttl_source == Some(TtlSource::Default),
        s.projection_authoritative && ttl_secs > 0 && (s.max_projection_ttl@ == 0 || ttl_secs
            * 1_000_000_000 <= s.max_projection_ttl@) ==> w.binding.projection_ttl@ == ttl_secs
            * 1_000_000_000 && w.ttl_source == Some(TtlSource::Node),
        s.projection_authoritative && ttl_secs > 0 && 0 < s.max_projection_ttl@ < ttl_secs
            * 1_000_000_000 ==> w.binding.projection_ttl@ == s.max_projection_ttl@ && w.ttl_source
            == Some(TtlSource::Clamped),
{
}

// ---- P2P artifacts -----------------------------------------------------------

/// A request about an artifact is admitted exactly where its cluster, backend and key are named,
/// and its node too where it has one; the fields are what the request says without white space
/// around it, and the node is discovery's for it, or else the one that it says.
pub proof fn artifacts_are_named_in_full<R: NodeRegistry>(
    s: &NodeRegistryGrpcService<R>,
    cluster_id: Seq<char>,
    backend: Seq<char>,
    key: Seq<char>,
    node_id: Option<Seq<char>>,
    r: Result<ArtifactFields, Status>,
)
    requires
        artifact_answer(s, cluster_id, backend, key, node_id, r),
    ensures
        r is Ok <==> trimmed(cluster_id).len() > 0 && trimmed(backend).len() > 0 && trimmed(
            key,
        ).len() > 0 && (node_id matches Some(raw) ==> trimmed(raw).len() > 0),
        r matches Ok(fields) ==> fields.cluster_id@ == trimmed(cluster_id) && fields.backend@
            == trimmed(backend) && fields.key@ == trimmed(key),
        (r matches Ok(fields) ==> node_id is None ==> fields.node_id@.len() == 0),
        (r matches Ok(fields) ==> node_id is Some && s.registry.resolves(
            trimmed(node_id->0),
        ) is Some ==> fields.node_id@ == s.registry.resolves(trimmed(node_id->0))->0.id@),
        (r matches Ok(fields) ==> node_id is Some && s.registry.resolves(
            trimmed(node_id->0),
        ) is None ==> fields.node_id@ == trimmed(node_id->0)),
        r matches Err(status) ==> status.code == Code::InvalidArgument,
        (r matches Err(status) ==> (trimmed(cluster_id).len() == 0 || trimmed(backend).len() == 0
            || trimmed(key).len() == 0) ==> status.message@
            == "cluster_id, backend, and key are required"@),
        (r matches Err(status) ==> trimmed(cluster_id).len() > 0 && trimmed(backend).len() > 0
            && trimmed(key).len() > 0 ==> status.message@ == "node_id is required"@),
{
}

// ---- events ------------------------------------------------------------------

/// Only a pause or a delete of a named sandbox under a known execution deletes a projection, and
/// then that of the event's own sandbox and execution. Any other event is recorded, and by which
/// word it is recorded tells why.
pub proof fn events_delete_their_own_incarnation(event: SandboxEvent, a: EventAction)
    requires
        is_event_action(event, a),
    ensures
        a is Delete <==> (event.event_type == SandboxEventType::Pause || event.event_type
            == SandboxEventType::Delete) && trimmed(event.sandbox_id@).len() > 0
            && event.execution_id@.len() > 0,
        a matches EventAction::Delete(d) ==> d.sandbox_id@ == trimmed(event.sandbox_id@)
            && d.execution_id@ == event.execution_id@,
        (a matches EventAction::Record { outcome } ==> event.event_type != SandboxEventType::Pause
            && event.event_type != SandboxEventType::Delete ==> outcome@ == "observed_only"@),
        (a matches EventAction::Record { outcome } ==> (event.event_type == SandboxEventType::Pause
            || event.event_type == SandboxEventType::Delete) && trimmed(event.sandbox_id@).len()
            == 0 ==> outcome@ == "ignored_no_sandbox"@),
        (a matches EventAction::Record { outcome } ==> (event.event_type == SandboxEventType::Pause
            || event.event_type == SandboxEventType::Delete) && trimmed(event.sandbox_id@).len()
            > 0 ==> outcome@ == "ignored_unknown_execution"@),
{
}

// ---- words -------------------------------------------------------------------

/// The words that the metrics name events, statuses, broker states and TTL sources by.
pub proof fn labels_are_these_words()
    ensures
        event_label(SandboxEventType::Create) == "create"@,
        event_label(SandboxEventType::Delete) == "delete"@,
        event_label(SandboxEventType::Pause) == "pause"@,
        event_label(SandboxEventType::Resume) == "resume"@,
        event_label(SandboxEventType::Fork) == "fork"@,
        event_label(SandboxEventType::Unspecified) == "other"@,
        status_label(NodeStatus::Ready) == "ready"@,
        status_label(NodeStatus::Connecting) == "connecting"@,
        status_label(NodeStatus::Unhealthy) == "unhealthy"@,
        status_label(NodeStatus::Lingering) == "lingering"@,
        status_label(NodeStatus::Draining) == "draining"@,
        status_label(NodeStatus::Unspecified) == "unspecified"@,
        broker_label(EgressBrokerState::Disabled) == "disabled"@,
        broker_label(EgressBrokerState::Embedded) == "embedded"@,
        broker_label(EgressBrokerState::LocalOk) == "local_ok"@,
        broker_label(EgressBrokerState::LocalUnreachable) == "local_unreachable"@,
        broker_label(EgressBrokerState::Unspecified) == "unknown"@,
        ttl_source_label(TtlSource::Default) == "default"@,
        ttl_source_label(TtlSource::Node) == "node"@,
        ttl_source_label(TtlSource::Clamped) == "clamped"@,
{
}

/// A status has its code and says its message, by the numbers and words of the wire: a status
/// without a message displays its code alone.
pub proof fn statuses_are_told_by_code_and_message(s: Status, code: Code, message: Seq<char>)
    ensures
        is_status(s, code, message) <==> s.code == code && s.message@ == message,
        code_number(Code::InvalidArgument) == 3,
        code_number(Code::NotFound) == 5,
        code_number(Code::FailedPrecondition) == 9,
        code_number(Code::Unimplemented) == 12,
        code_number(Code::Unavailable) == 14,
        code_description(3) == Some("Client specified an invalid argument"@),
        code_description(5) == Some("Some requested entity was not found"@),
        code_description(9) == Some(
            "The system is not in a state required for the operation's execution"@,
        ),
        code_description(12) == Some("Operation is not implemented or not supported"@),
        code_description(14) == Some("The service is currently unavailable"@),
        code_description(code_number(code)) is Some,
        message.len() == 0 ==> status_text(code_number(code), message) == "code: '"@
            + code_description(code_number(code))->0 + "'"@,
        message.len() > 0 ==> status_text(code_number(code), message) == "code: '"@
            + code_description(code_number(code))->0 + "'"@ + ", message: "@ + quoted_text(message),
{
}

// ---- gauges ------------------------------------------------------------------

proof fn counts_go_by_the_nodes(a: Seq<ObservedNode>, b: Seq<ObservedNode>, status: NodeStatus, k: int)
    requires
        0 <= k <= a.len(),
        k <= b.len(),
        forall|i: int| 0 <= i < k ==> a[i] == b[i],
    ensures
        status_count(a, status, k) == status_count(b, status, k),
    decreases k,
{
    if k > 0 {
        counts_go_by_the_nodes(a, b, status, k - 1);
    }
}

/// No node counts under no status. One more node adds one to the count of the status that it
/// reports and to no other; one that reports nothing adds one to the unspecified.
pub proof fn each_node_counts_once(
    nodes: Seq<ObservedNode>,
    node: ObservedNode,
    status: NodeStatus,
)
    ensures
        status_count(Seq::empty(), status, 0) == 0,
        node.snapshot matches Some(s) ==> status_count(
            nodes.push(node),
            status,
            nodes.push(node).len() as int,
        ) == status_count(nodes, status, nodes.len() as int) + if s.status == status {
            1nat
        } else {
            0nat
        },
        node.snapshot is None ==> status_count(
            nodes.push(node),
            status,
            nodes.push(node).len() as int,
        ) == status_count(nodes, status, nodes.len() as int) + if status
            == NodeStatus::Unspecified {
            1nat
        } else {
            0nat
        },
{
    counts_go_by_the_nodes(nodes.push(node), nodes, status, nodes.len() as int);
    assert(nodes.push(node)[nodes.len() as int] == node);
}

/// A series carries its node's identity and the word of its state, and is set exactly where the
/// node's last report names that state. The five states come in a fixed order.
pub proof fn series_tell_what_the_node_reports(
    s: BrokerSeries,
    node: ObservedNode,
    state: EgressBrokerState,
)
    ensures
        is_broker_series(s, node, state) ==> s.node_id@ == node.node_id@ && s.state@
            == broker_label(state),
        is_broker_series(s, node, state) && node.snapshot is None ==> !s.set,
        is_broker_series(s, node, state) && node.snapshot is Some ==> (s.set <==> (
        node.snapshot->0).egress_broker == state),
        broker_states().len() == 5,
        broker_states()[0] == EgressBrokerState::Disabled,
        broker_states()[1] == EgressBrokerState::Embedded,
        broker_states()[2] == EgressBrokerState::LocalOk,
        broker_states()[3] == EgressBrokerState::LocalUnreachable,
        broker_states()[4] == EgressBrokerState::Unspecified,
{
}

// ---- discovery ---------------------------------------------------------------

proof fn first_is_found(nodes: Seq<Node>, node_id: Seq<char>, k: int, i: int)
    requires
        0 <= k <= i < nodes.len(),
        nodes[i].id@ == node_id,
        forall|j: int| k <= j < i ==> (#[trigger] nodes[j]).id@ != node_id,
    ensures
        first_with_id(nodes, node_id, k) == Some(nodes[i]),
    decreases i - k,
{
    if k < i {
        assert(nodes[k].id@ != node_id);
        first_is_found(nodes, node_id, k + 1, i);
    }
}

proof fn none_is_found(nodes: Seq<Node>, node_id: Seq<char>, k: int)
    requires
        0 <= k <= nodes.len(),
        forall|j: int| k <= j < nodes.len() ==> (#[trigger] nodes[j]).id@ != node_id,
    ensures
        first_with_id(nodes, node_id, k) is None,
    decreases nodes.len() - k,
{
    if k < nodes.len() {
        assert(nodes[k].id@ != node_id);
        none_is_found(nodes, node_id, k + 1);
    }
}

/// A list resolves an identity to the first of its nodes that has it, and to nothing where none
/// has it.
pub proof fn lists_resolve_to_the_first(list: ListedNodes, node_id: Seq<char>, i: int)
    ensures
        0 <= i < list.nodes@.len() && list.nodes@[i].id@ == node_id && (forall|j: int|
            0 <= j < i ==> (#[trigger] list.nodes@[j]).id@ != node_id) ==> list.resolves(node_id)
            == Some(list.nodes@[i]),
        (forall|j: int| 0 <= j < list.nodes@.len() ==> (#[trigger] list.nodes@[j]).id@ != node_id)
            ==> list.resolves(node_id) is None,
{
    if 0 <= i < list.nodes@.len() && list.nodes@[i].id@ == node_id && (forall|j: int|
        0 <= j < i ==> (#[trigger] list.nodes@[j]).id@ != node_id) {
        first_is_found(list.nodes@, node_id, 0, i);
    }
    if forall|j: int| 0 <= j < list.nodes@.len() ==> (#[trigger] list.nodes@[j]).id@ != node_id {
        none_is_found(list.nodes@, node_id, 0);
    }
}

/// The status that a node counts under is the one it reports; a node without a report counts as
/// unspecified.
pub proof fn reported_statuses_count(node: ObservedNode)
    ensures
        node.snapshot matches Some(s) ==> counted_status(node) == s.status,
        node.snapshot is None ==> counted_status(node) == NodeStatus::Unspecified,
{
}

} // verus!
