//! Strategy, sampling, fleet reads and fixed placement.

use aenv_api::ids::{ExecutionId, SandboxId};
use aenv_api::node_client::placement::{
    routing_answer, FixedNodePlacement, NodeEndpoint, NodeMembership, NodePlacement,
    PlacementCause, PlacementError, PlacementNeeds, PlacementRefused, PlacementRuntimeRouting,
    SandboxResources,
};
use aenv_api::node_registry::fleet::{
    observed_node, observed_nodes, FleetNode, FleetNodes, NodeFleetView, NodeObservations,
};
use aenv_api::node_registry::placement::sample::{
    sample_without_replacement, ScriptedRng, ShadowRng, ThreadShadowRng,
};
use aenv_api::node_registry::registry::{ListedNodes, NodeRegistry};
use aenv_api::node_registry::strategy::{NoNodesAvailable, RoundRobinStrategy, ROUND_ROBIN_NAME};
use aenv_api::node_registry::types::{Node, ObservedNode, RichNode};
use aenv_api::orchestrator::runtime_routing::RuntimeRouting;
use std::sync::Arc;

fn rich(id: &str) -> RichNode {
    RichNode::new(Node {
        id: id.to_string(),
        endpoint: String::new(),
        pod_name: String::new(),
    })
}

#[test]
fn round_robin_cycles_in_order() {
    let mut s = RoundRobinStrategy::new();
    let nodes = vec![rich("a"), rich("b"), rich("c")];

    let got1 = s.select(&nodes, None).unwrap();
    let got2 = s.select(&nodes, None).unwrap();
    let got3 = s.select(&nodes, None).unwrap();
    let got4 = s.select(&nodes, None).unwrap();

    assert_eq!(
        [got1.node.id, got2.node.id, got3.node.id, got4.node.id],
        ["a", "b", "c", "a"]
    );
}

#[test]
fn round_robin_no_nodes_errors() {
    let mut s = RoundRobinStrategy::new();
    assert!(s.select(&[], None).is_err());
}

#[test]
fn the_strategy_metric_label_value_is_round_robin() {
    assert_eq!(ROUND_ROBIN_NAME, "round_robin");
    assert_eq!(RoundRobinStrategy::new().name(), "round_robin");
}

#[test]
fn a_refused_selection_does_not_move_the_cursor() {
    let mut s = RoundRobinStrategy::default();
    assert_eq!(s.select(&[], None).expect_err("no nodes"), NoNodesAvailable);
    assert_eq!(NoNodesAvailable.message(), "no nodes available");
    assert_eq!(s.select(&[rich("a"), rich("b")], None).unwrap().node.id, "a");
}

#[test]
fn scripted_draws_pin_the_sample() {
    let mut rng = ScriptedRng::new(vec![3, 0, 7]);
    assert_eq!(sample_without_replacement(5, 4, &mut rng), vec![3, 0, 2, 1]);
    rng.reset();
    assert_eq!(rng.index_below(5), 3);
    assert_eq!(rng.clone().index_below(9), 0, "a clone goes on where its original stands");
    rng.reset();
    assert_eq!(sample_without_replacement(5, 2, &mut rng), vec![3, 0]);
    assert_eq!(sample_without_replacement(0, 4, &mut rng), Vec::<usize>::new());
    assert_eq!(sample_without_replacement(4, 0, &mut rng), Vec::<usize>::new());
}

#[test]
fn a_sample_larger_than_the_pool_is_the_pool() {
    let mut rng = ScriptedRng::new(vec![]);
    assert_eq!(sample_without_replacement(3, u32::MAX, &mut rng), vec![0, 1, 2]);
}

#[test]
fn the_thread_generator_draws_distinct_pool_members() {
    let mut rng = ThreadShadowRng;
    assert_eq!(rng.index_below(0), 0);
    assert_eq!(rng.index_below(1), 0);
    let mut drawn = [false; 4];
    for _ in 0..400 {
        let sample = sample_without_replacement(4, 3, &mut rng);
        assert_eq!(sample.len(), 3);
        for (i, a) in sample.iter().enumerate() {
            assert!(*a < 4);
            assert!(!sample[..i].contains(a));
        }
        drawn[sample[0]] = true;
    }
    assert_eq!(drawn, [true; 4], "every member is drawn first at some time");
}

fn observed(id: &str, cluster: &str) -> ObservedNode {
    ObservedNode {
        node_id: id.to_string(),
        cluster_id: cluster.to_string(),
        endpoint: format!("http://{id}:8000"),
        snapshot: None,
    }
}

fn fleet() -> NodeObservations {
    NodeObservations {
        nodes: vec![observed("a", "one"), observed("b", "two"), observed("c", "one")],
    }
}

fn ids(nodes: &[ObservedNode]) -> Vec<&str> {
    nodes.iter().map(|n| n.node_id.as_str()).collect()
}

#[test]
fn an_empty_cluster_id_spans_every_cluster() {
    assert_eq!(ids(&observed_nodes(&fleet(), "")), ["a", "b", "c"]);
    assert_eq!(ids(&observed_nodes(&fleet(), "one")), ["a", "c"]);
    assert!(observed_nodes(&fleet(), "three").is_empty());
}

#[test]
fn a_node_is_read_by_its_trimmed_id_within_its_cluster() {
    assert_eq!(observed_node(&fleet(), "  b\n", "").expect("b").node_id, "b");
    assert!(observed_node(&fleet(), "b", "one").is_none());
    assert!(observed_node(&fleet(), " \u{2003} ", "").is_none());
    assert!(observed_node(&fleet(), "z", "").is_none());
}

#[test]
fn a_fleet_view_says_whose_nodes_it_lists() {
    let view = NodeFleetView::cluster(fleet(), 8001);
    assert!(matches!(view.list("two"), FleetNodes::Cluster(nodes) if ids(&nodes) == ["b"]));
    match view.get("a", "one") {
        FleetNode::Observed {
            node,
            node_service_port,
        } => {
            assert_eq!(node.node_id, "a");
            assert_eq!(node_service_port, 8001);
        }
        other => panic!("a is observed, got {other:?}"),
    }
    assert!(matches!(view.get("a", "two"), FleetNode::Absent));

    let own = NodeFleetView::self_report();
    assert!(matches!(own.list(""), FleetNodes::SelfReport));
    assert!(matches!(own.get("a", ""), FleetNode::SelfReport));
}

#[test]
fn listed_nodes_resolve_by_id() {
    let listed = ListedNodes {
        nodes: vec![rich("a").node, rich("b").node],
    };
    assert_eq!(listed.resolve("b").expect("b").id, "b");
    assert!(listed.resolve("c").is_none());
}

fn resources() -> SandboxResources {
    SandboxResources {
        cpu_count: 1,
        memory_mib: 256,
        disk_size_mib: 0,
    }
}

#[test]
fn a_fixed_placement_sends_everything_to_its_node() {
    let fixed = FixedNodePlacement::new(NodeEndpoint::same_address("n", "http://n:1"));
    let id = SandboxId { number: 1 };
    let run = ExecutionId { number: 2 };
    let placed = fixed
        .place_new(id, resources(), Some("elsewhere"), &["n".to_string()])
        .expect("placed");
    assert_eq!(placed.node_id, "n");
    assert_eq!(placed.endpoint, "http://n:1");
    assert_eq!(placed.advertised_endpoint, "http://n:1");
    let needs = PlacementNeeds { egress_broker: true };
    assert_eq!(
        fixed
            .place_new_with(id, resources(), None, &[], needs)
            .expect("placed")
            .node_id,
        "n"
    );
    assert_eq!(fixed.place_existing(id).expect("found").expect("a node").node_id, "n");
    assert_eq!(fixed.resolve_node("other").expect("resolved").node_id, "n");
    assert_eq!(
        fixed.node_membership("other").expect("known"),
        NodeMembership::Present
    );
    assert!(fixed.record_placement(id, run, &placed, 0).is_ok());
    assert!(fixed.reserve_placement(id, run, &placed).is_ok());
    assert!(fixed.release_placement_reservation(id, run).is_ok());
    assert!(fixed.reserve_launch(id, run).is_ok());
    assert!(fixed.release_launch(id, run).is_ok());
    assert!(fixed.forget_placement(id, run).is_ok());

    let routing = PlacementRuntimeRouting::shared(Arc::new(fixed));
    assert!(routing.is_routed(id).expect("an answer"));
    assert!(routing.forget(id, run).is_ok());
}

#[test]
fn a_failed_lookup_is_unknown_and_not_absence() {
    let node = NodeEndpoint::same_address("n", "http://n:1");
    assert!(routing_answer(Ok(Some(node))).expect("an answer"));
    assert!(!routing_answer(Ok(None)).expect("an answer"));
    let failed = PlacementError {
        message: "no answer".to_string(),
        cause: PlacementCause::Other,
    };
    assert_eq!(routing_answer(Err(failed)).expect_err("unknown").message, "no answer");
}

#[test]
fn a_refused_placement_says_what_is_missing() {
    assert_eq!(
        PlacementRefused::NoEgressBrokerNode.message(),
        "no node reports a usable egress broker; sandboxes with network rules cannot be placed"
    );
    assert!(!PlacementNeeds::default().egress_broker);
}
