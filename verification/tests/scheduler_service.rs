//! The scheduler service's decisions, in-process placement over them, and node launches.

use aenv_api::ids::{ExecutionId, SandboxId};
use aenv_api::node_client::factory::{
    placement_needs, AttachedDriveSpec, Expiry, NodeLaunchBuilder, PendingLaunch,
    RemoteSandboxStub, RunnableSnapshot, SandboxCreateRequest, SandboxLaunchConfig,
    SandboxNetworkPolicy, SnapshotRecord, Source, TimeoutAction, UnresolvedImageBuildSpec,
    Variable,
};
use aenv_api::node_client::native_placement::{
    qualified, resolved_endpoint, rewrite_port, rewritten, settled_endpoint, BindingVerdict, NativeNodePlacement,
};
use aenv_api::node_client::placement::{
    NodeEndpoint, NodeMembership, PlacementCause, PlacementNeeds, PlacementRefused,
    SandboxResources,
};
use aenv_api::node_registry::fleet::NodeObservations;
use aenv_api::node_registry::grpc_service::{
    egress_broker_label, egress_broker_series, lookup_response, node_status_label,
    observed_node_counts, projection_deleted, projection_ttl_from_secs, schedule_request,
    store_response, BindingDeleteOutcome, BindingState, EventAction, ExecutionAuthority,
    Binding, LookupAnswer, LookupOutcome, LookupResultLabel, NodeRegistryGrpcService, SandboxEvent,
    SandboxEventType, SelectNodeError, ShadowPlacement, TtlSource, WireNode, NOT_WIRED,
};
use aenv_api::node_registry::registry::ListedNodes;
use aenv_api::node_registry::status::{Code, Status};
use aenv_api::node_registry::types::{
    EgressBrokerState, Node, NodeSnapshot, NodeStatus, ObservedNode, RosterEntry,
    ScheduleRequestHint,
};
use aenv_api::node_registry::warmup::{NodeReading, SnapshotFreshness, WarmupGate};
use aenv_api::time::{Span, Timestamp};
use std::sync::Arc;

fn node(id: &str) -> Node {
    Node {
        id: id.to_string(),
        endpoint: format!("http://{id}:8000"),
        pod_name: String::new(),
    }
}

fn service(ids: &[&str]) -> NodeRegistryGrpcService<ListedNodes> {
    NodeRegistryGrpcService::new(
        ListedNodes {
            nodes: ids.iter().map(|id| node(id)).collect(),
        },
        WarmupGate::new(Span::from_secs(15), Timestamp::from_unix(0)),
    )
}

fn bound(ids: &[&str]) -> NodeRegistryGrpcService<ListedNodes> {
    service(ids).with_binding_store(true, Span::from_secs(3600))
}

fn refused<T>(r: Result<T, Status>) -> (Code, String) {
    match r {
        Ok(_) => panic!("expected a refusal"),
        Err(status) => (status.code, status.message),
    }
}

fn invalid(message: &str) -> (Code, String) {
    (Code::InvalidArgument, message.to_string())
}

fn unwired(head: &str) -> (Code, String) {
    (Code::Unimplemented, format!("{head}{NOT_WIRED}"))
}

#[test]
fn resolve_projection_ttl_matches_the_go_table() {
    let answer = |s: &NodeRegistryGrpcService<ListedNodes>, secs: u64| {
        let (ttl, source) = s.resolve_projection_ttl(Span::from_secs(secs));
        (ttl.secs, source.as_str())
    };
    let off = service(&[]);
    assert_eq!(
        answer(&off, 60),
        (0, "default"),
        "the switch off must always answer default, regardless of what the node offered"
    );

    let on = off.with_binding_store(true, Span::from_secs(3600));
    assert_eq!(
        answer(&on, 0),
        (0, "default"),
        "a non-positive raw value is always default, even with the switch on"
    );
    assert_eq!(
        answer(&on, 60),
        (60, "node"),
        "a raw value under the ceiling passes through unchanged"
    );
    assert_eq!(
        answer(&on, 7200),
        (3600, "clamped"),
        "a raw value over the ceiling is clamped to it"
    );
}

#[test]
fn a_status_shows_its_code_in_words_and_its_message_in_quotes() {
    let shown = |code, message: &str| Status::new(code, message).text();
    assert_eq!(
        shown(Code::InvalidArgument, "a \"b\""),
        "code: 'Client specified an invalid argument', message: \"a \\\"b\\\"\""
    );
    assert_eq!(shown(Code::NotFound, ""), "code: 'Some requested entity was not found'");
    assert_eq!(
        shown(Code::FailedPrecondition, "x"),
        "code: 'The system is not in a state required for the operation's execution', message: \"x\""
    );
    assert_eq!(
        shown(Code::Unimplemented, "x"),
        "code: 'Operation is not implemented or not supported', message: \"x\""
    );
    assert_eq!(
        shown(Code::Unavailable, "x"),
        "code: 'The service is currently unavailable', message: \"x\""
    );
}

#[test]
fn an_unwired_dependency_is_named() {
    let s = service(&["node-a"]);
    let binding = "binding store, and this deployment has none wired: ";
    assert_eq!(
        refused(s.lookup_sandbox("s")),
        unwired(&format!("looking up a sandbox needs a {binding}"))
    );
    assert_eq!(
        refused(s.record_running("s", "node-a", "e", 0)),
        unwired(&format!("recording a sandbox's node needs a {binding}"))
    );
    assert_eq!(
        refused(s.reserve_assignment("s", "node-a", "e", Span::zero())),
        unwired(&format!("reserving an assignment needs a {binding}"))
    );
    assert_eq!(
        refused(s.forget_assignment("s", "e")),
        unwired(&format!("retiring a routing projection needs a {binding}"))
    );
    assert_eq!(
        refused(s.release_assignment_reservation("s", "e")),
        unwired(&format!("releasing a reservation needs a {binding}"))
    );
    assert_eq!(
        refused(s.report_sandbox_event(&vec![])),
        unwired(&format!("ReportSandboxEvent needs a {binding}"))
    );
    let artifact = "needs an ArtifactStore, and this deployment has none wired: ";
    assert_eq!(
        refused(s.record_p2p_artifact("c", "b", "k", "n")),
        unwired(&format!("RecordP2pArtifact {artifact}"))
    );
    assert_eq!(
        refused(s.forget_p2p_artifact("c", "b", "k", "n")),
        unwired(&format!("ForgetP2pArtifact {artifact}"))
    );
    assert_eq!(
        refused(s.lookup_p2p_artifact("c", "b", "k", "n")),
        unwired(&format!("LookupP2pArtifact {artifact}"))
    );
}

#[test]
fn a_lookup_needs_an_id_and_tells_absence_from_ignorance() {
    let s = bound(&[]);
    assert_eq!(s.lookup_sandbox(" sbx-1\t").expect("an id"), "sbx-1");
    assert_eq!(refused(s.lookup_sandbox("  ")), invalid("sandbox_id is required"));
    let answer = LookupAnswer {
        node: node("node-a"),
        execution_id: "run-1".to_string(),
        label: LookupResultLabel::BoundBinding,
        execution_authority: ExecutionAuthority::Registry,
    };
    let answer = lookup_response(LookupOutcome::Answer(answer)).expect("an answer");
    assert_eq!(answer.node.id, "node-a");
    assert_eq!(answer.execution_id, "run-1");
    assert_eq!(answer.label, LookupResultLabel::BoundBinding);
    assert_eq!(answer.execution_authority.as_str(), "registry");
    assert_eq!(ExecutionAuthority::Unknown.as_str(), "unknown");
    assert_eq!(
        refused(lookup_response(LookupOutcome::NotFound)),
        (Code::NotFound, "sandbox assignment not found".to_string())
    );
    assert_eq!(
        refused(lookup_response(LookupOutcome::Unavailable(
            LookupResultLabel::Other("cold".to_string()),
            "still seeding".to_string()
        ))),
        (Code::Unavailable, "still seeding".to_string())
    );
    assert_eq!(
        refused(store_response::<u8>(None)),
        (Code::Unavailable, "binding store unavailable".to_string())
    );
    assert_eq!(store_response(Some(3)).expect("an answer"), 3);
}

/// The lookup of a sandbox whose binding the store read.
fn lookup(
    s: &mut NodeRegistryGrpcService<ListedNodes>,
    binding: Option<Binding>,
    nodes: &Vec<NodeReading>,
) -> Result<LookupAnswer, Status> {
    let outcome = s.lookup_bound(
        binding,
        ExecutionAuthority::Registry,
        (
            LookupResultLabel::Other("in_flight".to_string()),
            "a create for this sandbox has not finished".to_string(),
        ),
        (
            LookupResultLabel::Other("cold".to_string()),
            "the registry is still seeding".to_string(),
        ),
        nodes,
        Timestamp::from_unix(1),
    );
    lookup_response(outcome)
}

#[test]
fn lookup_node_without_a_binding_store_is_unimplemented() {
    let s = service(&[]);
    assert_eq!(refused(s.lookup_sandbox("sbx-1")).0, Code::Unimplemented);
}

#[test]
fn lookup_node_invalid_argument_for_an_empty_sandbox_id() {
    let s = bound(&[]);
    assert_eq!(refused(s.lookup_sandbox("   ")).0, Code::InvalidArgument);
}

#[test]
fn lookup_node_answers_bound_from_the_binding_store() {
    let mut s = bound(&["node-a"]);
    let execution_id = "00000000-0000-7000-8000-000000000007".to_string();
    let binding = Binding {
        node: Node {
            id: "node-a".to_string(),
            endpoint: "http://10.0.0.1:8000".to_string(),
            pod_name: String::new(),
        },
        execution_id: execution_id.clone(),
        projection_ttl: Span::from_secs(0),
        state: BindingState::Confirmed,
    };
    let resp = lookup(&mut s, Some(binding), &vec![]).expect("a binding exists");
    assert_eq!(resp.node.id, "node-a");
    assert_eq!(resp.node.endpoint, "http://10.0.0.1:8000");
    assert_eq!(resp.label, LookupResultLabel::BoundBinding);
    assert_eq!(resp.execution_id, execution_id);
    assert_eq!(resp.execution_authority, ExecutionAuthority::Registry);
}

#[test]
fn lookup_node_answers_neither_bound_nor_absent_while_a_create_is_in_flight() {
    let mut s = bound(&["node-a"]);
    let warm = vec![reading("node-a", true)];
    let reserved = s
        .reserve_assignment("sbx-1", "node-a", "run-7", Span::from_secs(300))
        .expect("reserve");
    assert_eq!(
        refused(lookup(&mut s, Some(reserved.binding), &warm)),
        (
            Code::Unavailable,
            "a create for this sandbox has not finished".to_string()
        )
    );
    let confirmed = s.record_assignment("sbx-1", "node-a", "run-7", 0).expect("acknowledged");
    let resp = lookup(&mut s, Some(confirmed.binding), &warm).expect("confirmed");
    assert_eq!(resp.node.id, "node-a");
    assert_eq!(resp.execution_id, "run-7");
}

#[test]
fn lookup_node_withholds_not_found_while_the_registry_is_cold() {
    let mut s = bound(&[]);
    assert_eq!(refused(lookup(&mut s, None, &vec![])).0, Code::Unavailable);
    let silent = vec![reading("node-a", false)];
    assert_eq!(refused(lookup(&mut s, None, &silent)).0, Code::Unavailable);
}

#[test]
fn lookup_node_answers_not_found_for_a_roster_no_reconcile_ever_bound() {
    let mut s = bound(&["node-a"]);
    let (code, _) = refused(lookup(&mut s, None, &vec![reading("node-a", true)]));
    assert_eq!(code, Code::NotFound);
}

#[test]
fn a_roster_the_binding_store_refuses_leaves_a_miss_unavailable_however_often_it_reports() {
    let mut s = bound(&["node-a"]);
    let seen = vec![reading("node-a", true)];
    for _ in 0..4 {
        beat(&mut s, "", false, &seen)
            .expect("a reconcile failure must not take the node's liveness down with it");
    }
    let (code, message) = refused(lookup(&mut s, None, &seen));
    assert_eq!(code, Code::Unavailable);
    assert!(message.contains("still seeding"), "{message}");
    beat(&mut s, "", true, &seen).expect("the heartbeat whose roster lands");
    assert_eq!(refused(lookup(&mut s, None, &seen)).0, Code::NotFound);
}

#[test]
fn a_projection_carries_discoverys_node_and_the_resolved_ttl() {
    let s = bound(&["node-a"]);
    let w = s.record_assignment(" sbx ", " node-a ", "run", 7200).expect("a binding");
    assert_eq!(w.sandbox_id, "sbx");
    assert_eq!(w.binding.node.endpoint, "http://node-a:8000");
    assert_eq!(w.binding.execution_id, "run");
    assert_eq!(w.binding.projection_ttl.secs, 3600);
    assert_eq!(w.binding.state, BindingState::Confirmed);
    assert_eq!(w.ttl_source, Some(TtlSource::Clamped));
    assert_eq!(
        s.record_running("sbx", "node-a", "run", 5).expect("a binding").ttl_source,
        Some(TtlSource::Node)
    );
    assert_eq!(
        refused(s.record_assignment("", "node-a", "", 0)),
        invalid("sandbox_id is required")
    );
    assert_eq!(
        refused(s.record_assignment("sbx-1", "   ", "", 0)),
        invalid("node_id is required")
    );
    assert_eq!(
        refused(s.record_assignment("sbx-1", "node-z", "", 0)),
        invalid("node is not in scheduler node list")
    );
    assert_eq!(projection_ttl_from_secs(0).secs, 0);
    assert_eq!(projection_ttl_from_secs(u32::MAX).secs, u64::from(u32::MAX));
}

#[test]
fn a_reservation_is_starting_and_lives_as_long_as_asked() {
    let s = bound(&["node-a"]);
    let w = s
        .reserve_assignment("sbx", " node-a", "run", Span::from_secs(9999))
        .expect("a reservation");
    assert_eq!(w.binding.state, BindingState::Starting);
    assert_eq!(w.binding.projection_ttl.secs, 9999);
    assert_eq!(w.ttl_source, None);
    assert_eq!(
        refused(s.reserve_assignment(" ", "node-a", "run", Span::zero())),
        invalid("sandbox_id is required")
    );
    assert_eq!(
        refused(s.reserve_assignment("sbx", "", "run", Span::zero())),
        invalid("node is not in scheduler node list")
    );
}

#[test]
fn retiring_a_projection_is_guarded_by_an_execution_and_releasing_is_not() {
    let s = bound(&[]);
    let d = s.forget_assignment(" sbx", "run").expect("a delete");
    assert_eq!((d.sandbox_id.as_str(), d.execution_id.as_str()), ("sbx", "run"));
    assert_eq!(
        refused(s.forget_assignment("sbx", "")),
        invalid("execution_id is required")
    );
    assert_eq!(refused(s.forget_assignment("", "")), invalid("sandbox_id is required"));
    assert_eq!(
        s.release_assignment_reservation("sbx", "").expect("a release").execution_id,
        ""
    );
    assert_eq!(
        refused(s.release_assignment_reservation(" ", "run")),
        invalid("sandbox_id is required")
    );
}

#[test]
fn endpoints_are_read_by_trimmed_id() {
    let s = service(&["node-a"]);
    assert_eq!(s.node_endpoint(" node-a\n").as_deref(), Some("http://node-a:8000"));
    assert_eq!(s.node_endpoint("node-b"), None);
}

#[test]
fn p2p_fields_are_required_and_resolve_their_node() {
    let s = service(&["node-a"]).with_artifact_store();
    let f = s.record_p2p_artifact(" c ", " iroh", "k ", " node-a ").expect("fields");
    assert_eq!(
        [f.cluster_id, f.backend, f.key, f.node_id],
        ["c", "iroh", "k", "node-a"]
    );
    assert_eq!(
        s.forget_p2p_artifact("c", "b", "k", " elsewhere ").expect("fields").node_id,
        "elsewhere"
    );
    assert_eq!(
        refused(s.record_p2p_artifact("c", " ", "k", "")),
        invalid("cluster_id, backend, and key are required")
    );
    assert_eq!(
        refused(s.record_p2p_artifact("c", "b", "k", " ")),
        invalid("node_id is required")
    );
    let asked = s.lookup_p2p_artifact("c", "b", "k", " node-b ").expect("fields");
    assert_eq!(asked.fields.node_id, "");
    assert_eq!(asked.exclude_node_id, "node-b");
    assert_eq!(asked.limit, 0);
    assert_eq!(
        refused(s.lookup_p2p_artifact("", "b", "k", "x")),
        invalid("cluster_id, backend, and key are required")
    );
    let direct = s.validate_p2p_artifact_fields("c", "b", "k", None).expect("fields");
    assert_eq!(direct.node_id, "");
}

fn reading(id: &str, observed: bool) -> NodeReading {
    NodeReading {
        node_id: id.to_string(),
        observed,
        freshness: if observed { Some(SnapshotFreshness::Fresh) } else { None },
    }
}

/// A heartbeat of node-a, whom the registry answers with a CPU config.
fn beat(
    s: &mut NodeRegistryGrpcService<ListedNodes>,
    cpu_config_json: &str,
    reconciled: bool,
    nodes: &Vec<NodeReading>,
) -> Result<String, Status> {
    let plan = s.heartbeat(Some((node("node-a"), cpu_config_json.to_string())), vec![])?;
    s.heartbeat_settled(plan, reconciled, nodes, Timestamp::from_unix(1))
}

#[test]
fn a_heartbeat_survives_a_binding_store_that_cannot_reconcile() {
    let mut s = bound(&["node-a"]);
    let seen = vec![reading("node-a", true)];
    assert_eq!(beat(&mut s, "{\"a\":1}", false, &seen).expect("it survives"), "{\"a\":1}");
    assert_eq!(refused(lookup(&mut s, None, &seen)).0, Code::Unavailable);
    let registry = NodeObservations { nodes: vec![observed("node-a", None)] };
    assert_eq!(s.get_node(&registry, "node-a", "").expect("observed").node_id, "node-a");
}

#[test]
fn a_failed_reconcile_is_held_against_the_registrys_node() {
    let mut s = bound(&["node-a"]);
    assert_eq!(
        s.heartbeat_request("node-alias", "svc").expect("admitted").0,
        "node-alias"
    );
    let plan = s.heartbeat(Some((node("node-a"), String::new())), vec![]).expect("a plan");
    let now = Timestamp::from_unix(1);
    s.heartbeat_settled(plan, false, &vec![], now).expect("a reply");
    assert!(!s.warmup.warmed_up(&vec![reading("node-a", true)], now));
    assert!(s.warmup.warmed_up(&vec![reading("node-alias", true)], now));
}

#[test]
fn a_heartbeat_is_admitted_planned_and_settled() {
    let mut s = bound(&["node-a"]).with_orphan_reaper();
    assert_eq!(
        s.heartbeat_request(" node-a ", " svc ").expect("admitted"),
        ("node-a".to_string(), "svc".to_string())
    );
    let missing = invalid("node_id and service_instance_id are required");
    assert_eq!(refused(s.heartbeat_request("", "svc")), missing);
    assert_eq!(refused(s.heartbeat_request("node-a", " ")), missing);
    assert_eq!(
        refused(s.heartbeat(None, vec![])),
        invalid("node is not in scheduler node list")
    );
    let answer = || Some((node("node-a"), "{}".to_string()));
    let roster = vec![
        RosterEntry {
            sandbox_id: "sbx-1".to_string(),
            execution_id: "run-1".to_string(),
            projection_ttl: Span::from_secs(5),
            paused: false,
        },
        RosterEntry {
            sandbox_id: "sbx-2".to_string(),
            execution_id: String::new(),
            projection_ttl: Span::zero(),
            paused: true,
        },
    ];
    let plan = s.heartbeat(answer(), roster).expect("a plan");
    assert!(plan.reap);
    assert!(plan.reconcile);
    assert_eq!(plan.node.id, "node-a");
    assert_eq!(plan.node.endpoint, "http://node-a:8000");
    assert_eq!(plan.cpu_config_json, "{}");
    let named: Vec<&str> = plan.roster.iter().map(|entry| entry.sandbox_id.as_str()).collect();
    assert_eq!(named, ["sbx-1", "sbx-2"]);
    let bare = service(&[]).heartbeat(answer(), vec![]).expect("a plan");
    assert!(!bare.reap);
    assert!(!bare.reconcile);

    let nodes = vec![reading("node-a", true)];
    let now = Timestamp::from_unix(1);
    assert_eq!(s.heartbeat_settled(plan, false, &nodes, now).expect("a reply"), "{}");
    assert!(!s.warmup.warmed_up(&nodes, now), "the roster is not absorbed");
    assert_eq!(beat(&mut s, "cpu", true, &nodes).expect("a reply"), "cpu");
    assert!(s.warmup.warmed_up(&nodes, now));

    let mut liveness = service(&["node-a"]);
    let silent = vec![reading("node-a", false)];
    beat(&mut liveness, "", false, &silent).expect("a reply");
    assert!(!liveness.warmup.warmed_up(&silent, now));
    assert!(
        liveness.warmup.warmed_up(&silent, Timestamp::from_unix(15)),
        "without a store a heartbeat counts as a report"
    );
}

#[test]
fn a_node_is_read_or_not_found() {
    let s = service(&[]);
    let observed = NodeObservations { nodes: vec![observed("node-a", None)] };
    assert_eq!(s.get_node(&observed, " node-a", "").expect("a node").node_id, "node-a");
    assert_eq!(refused(s.get_node(&observed, " ", "")), invalid("node_id is required"));
    assert_eq!(
        refused(s.get_node(&observed, "node-b", "")),
        (Code::NotFound, "observed node not found".to_string())
    );
}

#[test]
fn unregistering_cleans_up_what_is_wired() {
    let s = bound(&["node-a"]);
    let u = s.unregister_request(" node-a ", " svc ").expect("admitted");
    assert_eq!((u.canonical_id.as_str(), u.service_instance_id.as_str()), ("node-a", "svc"));
    assert_eq!(s.unregister_request("unknown", "svc").expect("admitted").canonical_id, "unknown");
    assert_eq!(
        refused(s.unregister_request("node-a", "")),
        invalid("node_id and service_instance_id are required")
    );
    let cleanup = s.unregister_node(&u, true).expect("a cleanup");
    let (reconciled, roster) = cleanup.reconcile.expect("a store is wired");
    assert_eq!(
        (reconciled.id.as_str(), reconciled.endpoint.as_str(), reconciled.pod_name.as_str()),
        ("node-a", "", "")
    );
    assert!(roster.is_empty());
    assert_eq!(cleanup.forget, None);
    let artifacts = service(&[]).with_artifact_store();
    let cleanup = artifacts.unregister_node(&u, true).expect("a cleanup");
    assert!(cleanup.reconcile.is_none());
    assert_eq!(cleanup.forget.as_deref(), Some("node-a"));
}

#[test]
fn unregister_node_refuses_a_service_instance_mismatch() {
    let s = bound(&["node-a"]).with_artifact_store();
    let u = s.unregister_request("node-a", "a-different-instance").expect("admitted");
    assert_eq!(u.service_instance_id, "a-different-instance");
    assert_eq!(
        refused(s.unregister_node(&u, false)),
        (Code::FailedPrecondition, "service instance mismatch".to_string())
    );
    let u = s.unregister_request("node-a", "node-a-instance").expect("admitted");
    let cleanup = s.unregister_node(&u, true).expect("the matching instance id is accepted");
    assert!(cleanup.reconcile.is_some());
    assert!(cleanup.forget.is_some());
}

#[test]
fn unregister_node_still_succeeds_when_binding_cleanup_fails() {
    let settled = |reconciled| {
        NodeRegistryGrpcService::<ListedNodes>::unregister_settled(reconciled)
            .expect("unregister succeeds")
            .bindings_left
    };
    assert!(settled(Some(false)));
    assert!(!settled(Some(true)));
    assert!(!settled(None));
}

#[test]
fn a_resolved_node_must_be_the_one_asked_for() {
    let dialed = || Some(Some("http://n:8001/".to_string()));
    let found = resolved_endpoint("node-a", observed("node-a", None), dialed()).expect("a node");
    assert_eq!(found.endpoint, "http://n:8001/");
    assert_eq!(
        resolved_endpoint("node-b", observed("node-a", None), dialed())
            .expect_err("another node")
            .message,
        "asked the node registry where node node-b is and it answered about node node-a"
    );
    assert!(resolved_endpoint("node-b", observed("node-a", None), Some(None))
        .expect_err("no host")
        .message
        .contains("no host"));
}

#[test]
fn only_pauses_and_deletes_remove_a_projection() {
    let s = bound(&[]);
    let event = |event_type, sandbox: &str, execution: &str| SandboxEvent {
        event_type,
        sandbox_id: sandbox.to_string(),
        execution_id: execution.to_string(),
    };
    let actions = s
        .report_sandbox_event(&vec![
            event(SandboxEventType::Pause, " s ", "e"),
            event(SandboxEventType::Delete, " ", "e"),
            event(SandboxEventType::Delete, "s", ""),
            event(SandboxEventType::Resume, "s", "e"),
        ])
        .expect("actions");
    assert_eq!(actions.len(), 4);
    match &actions[0] {
        EventAction::Delete(d) => {
            assert_eq!((d.sandbox_id.as_str(), d.execution_id.as_str()), ("s", "e"))
        }
        other => panic!("expected a delete, got {other:?}"),
    }
    let recorded = |i: usize| match &actions[i] {
        EventAction::Record { outcome } => *outcome,
        other => panic!("expected a record, got {other:?}"),
    };
    assert_eq!(recorded(1), "ignored_no_sandbox");
    assert_eq!(recorded(2), "ignored_unknown_execution");
    assert_eq!(recorded(3), "observed_only");
    let labels: Vec<&str> = [
        SandboxEventType::Create,
        SandboxEventType::Delete,
        SandboxEventType::Pause,
        SandboxEventType::Resume,
        SandboxEventType::Fork,
        SandboxEventType::Unspecified,
    ]
    .into_iter()
    .map(NodeRegistryGrpcService::<ListedNodes>::sandbox_event_type_label)
    .collect();
    assert_eq!(labels, ["create", "delete", "pause", "resume", "fork", "other"]);
    assert!(projection_deleted(Some(BindingDeleteOutcome::Deleted)));
    assert!(projection_deleted(Some(BindingDeleteOutcome::DeletedUnknownIncumbent)));
    assert!(!projection_deleted(Some(BindingDeleteOutcome::RejectedStale)));
    assert!(!projection_deleted(None));
}

#[test]
fn a_placement_request_is_read_and_answered() {
    let resources = SandboxResources { cpu_count: 0, memory_mib: 256, disk_size_mib: 1 };
    let hint = NativeNodePlacement::<ListedNodes>::place_request(
        resources,
        Some("node-b"),
        vec!["node-c".to_string()],
        PlacementNeeds { egress_broker: true },
    );
    match &hint {
        ScheduleRequestHint::NewSandbox(new) => {
            assert_eq!(new.cpu_count, Some(0), "zero is known");
            assert_eq!(new.memory_mib, Some(256));
            assert!(new.requires_egress_broker);
        }
        other => panic!("expected a new sandbox, got {other:?}"),
    }
    let (preferred, excluded) = schedule_request(Some(&hint));
    assert_eq!(preferred, "node-b");
    assert_eq!(excluded, vec!["node-c".to_string()]);
    assert_eq!(schedule_request(None), (String::new(), vec![]));
    assert_eq!(
        schedule_request(Some(&ScheduleRequestHint::Unspecified)),
        (String::new(), vec![])
    );

    let s = service(&[]).with_placement_shadow_k(2);
    assert_eq!(s.shadow, Some(ShadowPlacement { k: 2 }));
    let s = s.with_placement_shadow(ShadowPlacement { k: 5 });
    assert_eq!(s.shadow, Some(ShadowPlacement { k: 5 }));
    let wire = s.schedule(Ok(node("node-a"))).expect("a node");
    assert_eq!(wire.node_id, "node-a");
    assert_eq!(wire.endpoint, "http://node-a:8000");
    assert_eq!(
        refused(s.schedule(Err(SelectNodeError::NoNodes))),
        (Code::Unavailable, "no nodes available".to_string())
    );
    assert_eq!(
        refused(s.schedule(Err(SelectNodeError::NoEgressBrokerNode))),
        (
            Code::FailedPrecondition,
            "no schedulable node reports a usable egress broker".to_string()
        )
    );
}

fn observed(id: &str, snapshot: Option<NodeSnapshot>) -> ObservedNode {
    ObservedNode {
        node_id: id.to_string(),
        cluster_id: "cluster-a".to_string(),
        endpoint: format!("http://{id}:8000"),
        snapshot,
    }
}

#[test]
fn every_status_and_broker_state_has_its_series() {
    let ready = NodeSnapshot {
        status: NodeStatus::Ready,
        egress_broker: EgressBrokerState::LocalOk,
    };
    let nodes = vec![observed("a", Some(ready)), observed("b", None), observed("c", Some(ready))];
    let counts = observed_node_counts(&nodes);
    assert_eq!(counts.ready, 2);
    assert_eq!(counts.unspecified, 1);
    assert_eq!(
        counts.connecting + counts.unhealthy + counts.lingering + counts.draining,
        0
    );
    let series = egress_broker_series(&nodes);
    assert_eq!(series.len(), 15);
    let set: Vec<(&str, &str)> = series
        .iter()
        .filter(|s| s.set)
        .map(|s| (s.node_id.as_str(), s.state))
        .collect();
    assert_eq!(set, [("a", "local_ok"), ("c", "local_ok")]);
    assert_eq!(
        series[..5].iter().map(|s| s.state).collect::<Vec<_>>(),
        ["disabled", "embedded", "local_ok", "local_unreachable", "unknown"]
    );
    assert_eq!(egress_broker_label(EgressBrokerState::Unspecified), "unknown");
    assert_eq!(node_status_label(NodeStatus::Draining), "draining");
    assert_eq!(node_status_label(NodeStatus::Unhealthy), "unhealthy");
}

#[test]
fn the_scheduler_names_a_http_port_and_the_node_service_is_on_another() {
    assert_eq!(
        rewrite_port("http://10.0.0.7:8000", 8001).unwrap(),
        "http://10.0.0.7:8001/"
    );
    assert_eq!(
        rewrite_port("10.0.0.7:8000", 8001).unwrap(),
        "http://10.0.0.7:8001/"
    );
    assert_eq!(
        rewrite_port("http://[fd00::7]:8000", 8001).unwrap(),
        "http://[fd00::7]:8001/"
    );
}

#[test]
fn an_address_with_no_host_is_refused_rather_than_carrying_a_port() {
    let err = rewrite_port("unix:///var/run/agentenv.sock", 8001)
        .expect_err("a socket path is not somewhere to put a port");
    assert!(err.message().contains("no host"), "{}", err.message());
}

#[test]
fn an_address_that_is_no_uri_is_quoted_in_its_error() {
    assert_eq!(
        rewrite_port("http://a b", 1).expect_err("no uri").message(),
        "node address \"http://a b\" is not a valid URI"
    );
    assert_eq!(
        rewritten("x\"y", Some(None)).expect_err("no host").message(),
        "node address \"x\\\"y\" has no host to put a port on"
    );
    assert_eq!(rewritten("x", Some(Some("z".to_string()))).expect("a text"), "z");
    assert_eq!(qualified("host:1"), "http://host:1");
    assert_eq!(qualified("https://host"), "https://host");
}

fn native(ids: &[&str]) -> NativeNodePlacement<ListedNodes> {
    NativeNodePlacement::new(8001, bound(ids))
}

fn wire(id: &str, endpoint: &str) -> WireNode {
    WireNode {
        node_id: id.to_string(),
        endpoint: endpoint.to_string(),
    }
}

#[test]
fn a_placed_node_is_dialed_on_the_node_service_port() {
    let p = native(&[]);
    let none = PlacementNeeds::default();
    let placed = p
        .place_new_with(Ok(Some(wire("node-a", "http://10.0.0.1:8000"))), none)
        .expect("placed");
    assert_eq!(placed.node_id, "node-a");
    assert_eq!(placed.endpoint, "http://10.0.0.1:8001/");
    assert_eq!(placed.advertised_endpoint, "http://10.0.0.1:8000");
    let message = |node| p.place_new(Ok(node)).expect_err("no endpoint").message;
    assert_eq!(message(None), "the local scheduler named no node");
    assert_eq!(
        message(Some(wire("", "http://x"))),
        "the local scheduler named a node with no id"
    );
    assert_eq!(
        message(Some(wire("node-a", ""))),
        "the local scheduler named node node-a with no address"
    );
    assert_eq!(
        message(Some(wire("node-a", "unix:///x"))),
        "node address \"unix:///x\" has no host to put a port on"
    );
}

#[test]
fn settled_endpoints_follow_the_replaced_port() {
    let settle = |replaced| {
        settled_endpoint("it", "n".to_string(), "addr".to_string(), replaced)
    };
    assert_eq!(settle(Some(Some("dial".to_string()))).expect("dialed").endpoint, "dial");
    assert_eq!(
        settle(None).expect_err("no uri").message,
        "node address \"addr\" is not a valid URI"
    );
}

#[test]
fn a_refusal_for_want_of_a_broker_is_one_only_when_a_broker_is_needed() {
    let p = native(&[]);
    let refusal = || Err(Status::new(Code::FailedPrecondition, "no broker"));
    let needs = PlacementNeeds { egress_broker: true };
    let err = p.place_new_with(refusal(), needs).expect_err("refused");
    assert!(matches!(
        err.cause,
        PlacementCause::Refused(PlacementRefused::NoEgressBrokerNode)
    ));
    let err = p.place_new(refusal()).expect_err("refused");
    assert!(matches!(err.cause, PlacementCause::Other));
    assert_eq!(
        err.message,
        format!(
            "the local scheduler refused to place a sandbox: {}",
            tonic::Status::failed_precondition("no broker")
        )
    );
}

#[test]
fn only_not_found_locates_nothing() {
    let p = native(&[]);
    let id = SandboxId { number: 1 };
    let found = p
        .place_existing(
            id,
            Ok(LookupAnswer {
                node: node("10.0.0.9"),
                execution_id: String::new(),
                label: LookupResultLabel::Other("elsewhere".to_string()),
                execution_authority: ExecutionAuthority::Unknown,
            }),
        )
        .expect("found")
        .expect("a node");
    assert_eq!(found.endpoint, "http://10.0.0.9:8001/");
    assert!(p
        .place_existing(id, Err(Status::new(Code::NotFound, "gone")))
        .expect("a verdict")
        .is_none());
    let err = p
        .place_existing(id, Err(Status::new(Code::Unavailable, "cold")))
        .expect_err("unknown");
    assert_eq!(
        err.message,
        "the local scheduler could not locate 00000000-0000-0000-0000-000000000001"
    );
    assert!(
        matches!(err.cause, PlacementCause::Status(status) if status.code == Code::Unavailable)
    );
}

#[test]
fn a_cold_registry_withholds_absence() {
    let mut p = native(&["node-a"]);
    let silent = vec![reading("node-a", false)];
    let early = Timestamp::from_unix(1);
    let err = p.node_membership("node-x", false, &silent, early).expect_err("cold");
    assert!(err.message.starts_with("the node registry has not finished warming up"));
    assert!(err.message.ends_with("whether node node-x is still part of the cluster"));
    let err = p.resolve_node("node-x", None, &silent, early).expect_err("cold");
    assert!(err.message.ends_with("whether node node-x has an observed record"));
    assert_eq!(
        p.node_membership("node-x", true, &silent, early).expect("known"),
        NodeMembership::Present
    );

    let heard = vec![reading("node-a", true)];
    assert_eq!(
        p.node_membership("node-x", false, &heard, early).expect("known"),
        NodeMembership::Gone
    );
    assert_eq!(
        p.resolve_node("node-x", None, &heard, early).expect_err("absent").message,
        "the node registry has no observed record for node node-x"
    );
}

#[test]
fn a_resolved_node_is_the_one_that_was_asked_for() {
    let mut p = native(&[]);
    let now = Timestamp::from_unix(1);
    let resolved = p
        .resolve_node("node-a", Some(observed("node-a", None)), &vec![], now)
        .expect("resolved");
    assert_eq!(resolved.endpoint, "http://node-a:8001/");
    assert_eq!(
        p.resolve_node("node-b", Some(observed("node-a", None)), &vec![], now)
            .expect_err("another node")
            .message,
        "asked the node registry where node node-b is and it answered about node node-a"
    );
    let nameless = ObservedNode { node_id: String::new(), ..observed("x", None) };
    assert_eq!(
        p.node_service_endpoint(nameless).expect_err("no id").message,
        "the node registry named a node with no id"
    );
    let homeless = ObservedNode { endpoint: String::new(), ..observed("x", None) };
    assert_eq!(
        p.node_service_endpoint(homeless).expect_err("no address").message,
        "the node registry named node x with no address"
    );
}

#[test]
fn placements_are_reserved_recorded_and_retired_under_their_ids() {
    let p = native(&["node-a"]);
    let id = SandboxId { number: 1 };
    let here = NodeEndpoint::same_address("node-a", "http://elsewhere");
    let text = "00000000-0000-0000-0000-000000000001";

    let w = p.reserve_placement(id, "run", &here).expect("reserved");
    assert_eq!(w.sandbox_id, text);
    assert_eq!(w.binding.projection_ttl.secs, 300);
    assert_eq!(w.binding.state, BindingState::Starting);
    let w = p.record_placement(id, "run", &here, 60).expect("recorded");
    assert_eq!(w.binding.node.endpoint, "http://node-a:8000", "discovery's address");
    assert_eq!(w.binding.projection_ttl.secs, 60);
    assert_eq!(p.release_placement_reservation(id, "run").expect("released").sandbox_id, text);
    assert_eq!(p.forget_placement(id, "run").expect("retired").execution_id, "run");

    let nowhere = NodeEndpoint::same_address("node-z", "http://z");
    let unknown = tonic::Status::invalid_argument("node is not in scheduler node list");
    assert_eq!(
        p.reserve_placement(id, "run", &nowhere).expect_err("unknown").message,
        format!("the local scheduler refused to reserve {text}: {unknown}")
    );
    assert_eq!(
        p.record_placement(id, "run", &nowhere, 0).expect_err("unknown").message,
        format!("the local scheduler refused an assignment for {text}: {unknown}")
    );
    let missing = tonic::Status::invalid_argument("execution_id is required");
    assert_eq!(
        p.forget_placement(id, "").expect_err("unguarded").message,
        format!("the local scheduler could not retire the routing record for {text}: {missing}")
    );
    let bare = NativeNodePlacement::new(8001, service(&[]));
    assert!(bare
        .release_placement_reservation(id, "run")
        .expect_err("unwired")
        .message
        .starts_with(&format!(
            "the local scheduler could not release the reservation for {text}: "
        )));
}

#[test]
fn a_reservation_in_flight_is_waited_for_and_another_incarnation_is_not() {
    let id = SandboxId { number: 1 };
    let here = NodeEndpoint::same_address("node-a", "http://a");
    let settle = |decision| {
        NativeNodePlacement::<ListedNodes>::reservation_settled(id, &here, decision)
    };
    assert!(settle(Ok(BindingVerdict::Accepted)).is_ok());
    let err = settle(Ok(BindingVerdict::RejectedInflight)).expect_err("in flight");
    assert_eq!(
        err.message,
        "the local scheduler refused to reserve 00000000-0000-0000-0000-000000000001 on node \
         node-a: a launch of it is still in flight"
    );
    assert!(
        matches!(err.cause, PlacementCause::LaunchHeldElsewhere { sandbox_id } if sandbox_id == id)
    );
    let err = settle(Ok(BindingVerdict::Rejected { label: "stale".to_string() }))
        .expect_err("held");
    assert!(err.message.ends_with("another incarnation (stale) already holds it"));
    assert!(matches!(err.cause, PlacementCause::Other));
    assert!(settle(Err(Status::new(Code::Unavailable, "down"))).is_err());
}

fn launch_config() -> SandboxLaunchConfig {
    SandboxLaunchConfig {
        sandbox_id: SandboxId { number: 0xab },
        envd_access_token: None,
        traffic_access_token: None,
        env_vars: None,
        network: None,
        custom_extension_params: None,
        control_plane_config: None,
        preferred_node_id: None,
    }
}

fn record() -> SnapshotRecord {
    SnapshotRecord {
        id: "snapshot".to_string(),
        resources: SandboxResources { cpu_count: 2, memory_mib: 512, disk_size_mib: 10 },
        encoded: Ok(vec![1, 2, 3]),
    }
}

fn request<P, O>(stub: RemoteSandboxStub<P, O>) -> SandboxCreateRequest {
    match stub.pending {
        PendingLaunch::Launch { request, .. } => request,
        PendingLaunch::Attach => panic!("expected a launch"),
    }
}

fn builder() -> NodeLaunchBuilder<&'static str, &'static str> {
    NodeLaunchBuilder::new(Arc::new("placement"), Arc::new("owner"))
}

#[test]
fn the_remote_factory_sends_no_blank_ownership_marker() {
    let run = ExecutionId { number: 7 };
    let marker = b"the control plane's record of this sandbox".to_vec();
    let mut config = launch_config();
    config.control_plane_config = Some(marker.clone());
    let sent = request(
        builder()
            .build_from_snapshot_record(&record(), config, run)
            .expect("a stub"),
    );
    assert_eq!(
        sent.control_plane_config, marker,
        "the marker is per sandbox: it arrives from the caller that decides what that record is"
    );

    let mut config = launch_config();
    config.control_plane_config = Some(marker.clone());
    let spec = UnresolvedImageBuildSpec {
        image_ref: "registry.invalid/agentenv/cold-start:pinned".to_string(),
        resources: record().resources,
        attached_drives: vec![],
        extra_boot_args: None,
    };
    let sent = request(builder().build_from_image_ref(spec, config, run).expect("a stub"));
    assert_eq!(sent.control_plane_config, marker);

    let sent = request(
        builder()
            .build_from_snapshot_record(&record(), launch_config(), run)
            .expect("a stub"),
    );
    assert!(sent.control_plane_config.is_empty(), "an unstamped create remains unclaimed");
}

#[test]
fn a_snapshot_launch_forwards_its_record_and_leaves_expiry_to_the_caller() {
    let run = ExecutionId { number: 7 };
    let mut config = launch_config();
    config.envd_access_token = Some("t".to_string());
    config.traffic_access_token = Some("traffic".to_string());
    config.env_vars = Some(vec![Variable { name: "A".to_string(), value: "1".to_string() }]);
    config.network = Some(SandboxNetworkPolicy { has_brokers: true, encoded: Ok(vec![9]) });
    config.custom_extension_params = Some(Ok(vec![8]));
    config.preferred_node_id = Some("node-b".to_string());
    let snapshot = RunnableSnapshot { record: record() };
    let stub = builder().build_from_snapshot(&snapshot, config, run).expect("a stub");
    assert_eq!(stub.sandbox_id, SandboxId { number: 0xab });
    assert_eq!(stub.execution_id, run);
    assert_eq!(stub.resources, record().resources);
    assert_eq!((*stub.placement, *stub.record_owner), ("placement", "owner"));
    match stub.pending {
        PendingLaunch::Launch { request, preferred_node_id, needs } => {
            assert_eq!(preferred_node_id.as_deref(), Some("node-b"));
            assert!(needs.egress_broker);
            assert_eq!(request.sandbox_id, "00000000-0000-0000-0000-0000000000ab");
            assert_eq!(request.execution_id, "00000000-0000-0000-0000-000000000007");
            assert_eq!(request.expiry, Expiry::CallerKept);
            assert_eq!(request.timeout_action, TimeoutAction::Pause);
            assert!(!request.auto_resume);
            assert!(request.secure);
            assert_eq!(request.traffic_access_token, "traffic");
            assert!(request.user_metadata.is_empty());
            assert_eq!(request.env_vars.len(), 1);
            assert_eq!(request.network_policy, Some(vec![9]));
            assert_eq!(request.custom_extension_params, Some(vec![8]));
            match request.source {
                Source::Snapshot { snapshot_id, resolved_record } => {
                    assert_eq!(snapshot_id, "snapshot");
                    assert_eq!(resolved_record, vec![1, 2, 3]);
                }
                other => panic!("expected a snapshot, got {other:?}"),
            }
        }
        PendingLaunch::Attach => panic!("expected a launch"),
    }
}

#[test]
fn an_image_launch_forwards_the_unresolved_reference() {
    let spec = UnresolvedImageBuildSpec {
        image_ref: "image:tag".to_string(),
        resources: record().resources,
        attached_drives: vec![
            AttachedDriveSpec {
                image_ref: "data:1".to_string(),
                mount_path: "/mnt".to_string(),
                drive_id: "d".to_string(),
                read_only: true,
                sub_path: Some("sub".to_string()),
                virtual_size: Some(4096),
            },
            AttachedDriveSpec {
                image_ref: "data:2".to_string(),
                mount_path: "/opt".to_string(),
                drive_id: "e".to_string(),
                read_only: false,
                sub_path: None,
                virtual_size: None,
            },
        ],
        extra_boot_args: Some("quiet".to_string()),
    };
    let sent = request(
        builder()
            .build_from_image_ref(spec, launch_config(), ExecutionId { number: 7 })
            .expect("a stub"),
    );
    assert!(!sent.secure);
    assert_eq!(sent.traffic_access_token, "");
    match sent.source {
        Source::Image { image_ref, resources, attached_drives, extra_boot_args } => {
            assert_eq!(image_ref, "image:tag");
            assert_eq!(resources, record().resources);
            assert_eq!(extra_boot_args, "quiet");
            assert_eq!(attached_drives.len(), 2);
            assert_eq!(attached_drives[0].sub_path, "sub");
            assert_eq!(attached_drives[0].virtual_size_bytes, 4096);
            assert!(attached_drives[0].read_only);
            assert_eq!(attached_drives[1].sub_path, "");
            assert_eq!(attached_drives[1].virtual_size_bytes, 0);
            assert_eq!(attached_drives[1].mount_path, "/opt");
        }
        other => panic!("expected an image, got {other:?}"),
    }
}

#[test]
fn what_has_no_wire_form_fails_the_launch_in_order() {
    let failing = || {
        let mut config = launch_config();
        config.network = Some(SandboxNetworkPolicy {
            has_brokers: false,
            encoded: Err("p".to_string()),
        });
        config.custom_extension_params = Some(Err("c".to_string()));
        config
    };
    let run = ExecutionId { number: 7 };
    let fault = |record: &SnapshotRecord, config| {
        match builder().build_from_snapshot_record(record, config, run) {
            Ok(_) => panic!("expected a fault"),
            Err(e) => (e.what, e.reason),
        }
    };
    let mut bad = record();
    bad.encoded = Err("r".to_string());
    assert_eq!(fault(&bad, failing()), ("resolved snapshot record", "r".to_string()));
    assert_eq!(fault(&record(), failing()), ("network policy", "p".to_string()));
    let mut config = failing();
    config.network = None;
    assert_eq!(fault(&record(), config), ("custom extension params", "c".to_string()));
}

#[test]
fn a_running_sandbox_is_attached_to_without_a_launch() {
    let stub = builder().attach_to_running(
        SandboxId { number: 1 },
        ExecutionId { number: 2 },
        record().resources,
    );
    assert_eq!(stub.sandbox_id, SandboxId { number: 1 });
    assert_eq!(stub.execution_id, ExecutionId { number: 2 });
    assert!(matches!(stub.pending, PendingLaunch::Attach));
    assert!(!placement_needs(&None).egress_broker);
}
