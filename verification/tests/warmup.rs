//! The warm-up gate against a registry whose reports age.

use aenv_api::node_registry::warmup::{
    NodeReading, SnapshotFreshness, WarmupGate, DEFAULT_WARMUP_TIMEOUT_SECS,
};
use aenv_api::time::{Span, Timestamp};
use std::collections::HashMap;

fn unix(secs: i64) -> Timestamp {
    Timestamp::from_unix(secs)
}

fn secs(n: u64) -> Span {
    Span::from_secs(n)
}

/// Discovered nodes and when each was last heard from, with a report time to live.
struct Registry {
    nodes: Vec<String>,
    seen: HashMap<String, i64>,
    ttl: i64,
}

impl Registry {
    fn new(nodes: &[&str], ttl: i64) -> Self {
        Registry {
            nodes: nodes.iter().map(|n| n.to_string()).collect(),
            seen: HashMap::new(),
            ttl,
        }
    }

    fn set(&mut self, nodes: &[&str]) {
        self.nodes = nodes.iter().map(|n| n.to_string()).collect();
    }

    fn observe(&mut self, node_id: &str, now: Timestamp) {
        self.seen.insert(node_id.to_string(), now.secs);
    }

    fn read(&self, now: Timestamp) -> Vec<NodeReading> {
        self.nodes
            .iter()
            .map(|id| {
                let seen = self.seen.get(id);
                NodeReading {
                    node_id: id.clone(),
                    observed: seen.is_some(),
                    freshness: seen.map(|at| {
                        if *at > now.secs {
                            SnapshotFreshness::ClockSkew
                        } else if now.secs - at <= self.ttl {
                            SnapshotFreshness::Fresh
                        } else {
                            SnapshotFreshness::Stale
                        }
                    }),
                }
            })
            .collect()
    }
}

fn warm(gate: &mut WarmupGate, registry: &Registry, now: Timestamp) -> bool {
    gate.warmed_up(&registry.read(now), now)
}

fn heartbeat(registry: &mut Registry, gate: &mut WarmupGate, node_id: &str, now: Timestamp) {
    registry.observe(node_id, now);
    gate.reported_in(&registry.read(now), now);
}

#[test]
fn cold_before_discovery() {
    let registry = Registry::new(&[], 30);
    let now = unix(100);
    let mut gate = WarmupGate::new(secs(15), now);

    assert!(
        !warm(&mut gate, &registry, now),
        "a registry that has discovered no nodes must not be warm"
    );
}

#[test]
fn stays_cold_until_every_known_node_reports() {
    let mut registry = Registry::new(&["node-a", "node-b"], 30);
    let now = unix(100);
    let mut gate = WarmupGate::new(secs(15), now);

    heartbeat(&mut registry, &mut gate, "node-a", now);
    assert!(!warm(&mut gate, &registry, now), "node-b has not reported yet");

    heartbeat(&mut registry, &mut gate, "node-b", now);
    assert!(
        warm(&mut gate, &registry, now),
        "every known node has reported; the warm-up gate must open"
    );
}

#[test]
fn opens_at_the_deadline_for_a_silent_straggler_once_something_has_reported() {
    let mut registry = Registry::new(&["node-a", "node-b"], 30);
    let start = unix(100);
    let mut gate = WarmupGate::new(secs(15), start);
    heartbeat(&mut registry, &mut gate, "node-a", start);

    assert!(
        !warm(&mut gate, &registry, start.plus(secs(14))),
        "the warm-up gate must stay shut until the deadline, even with node-a already reported"
    );
    assert!(
        warm(&mut gate, &registry, start.plus(secs(15))),
        "the warm-up gate must open at the deadline even with node-b still silent, now that \
         node-a has reported at least once"
    );
}

#[test]
fn stays_cold_past_the_deadline_when_nothing_has_ever_reported() {
    let registry = Registry::new(&["node-a"], 30);
    let start = unix(100);
    let mut gate = WarmupGate::new(secs(15), start);

    assert!(
        !warm(&mut gate, &registry, start.plus(secs(14))),
        "the warm-up gate must stay shut before the deadline"
    );
    assert!(
        !warm(&mut gate, &registry, start.plus(secs(15))),
        "the warm-up gate must stay shut at and after the deadline too -- nothing has ever \
         reported, so this is a registry that has not finished starting, not a \
         genuinely-down node"
    );
    assert!(
        !warm(&mut gate, &registry, start.plus(secs(1_000_000))),
        "and it must stay shut arbitrarily far past the deadline, for the same reason"
    );
}

#[test]
fn a_replica_the_heartbeats_never_reached_warms_on_what_its_registry_observed() {
    let mut registry = Registry::new(&["node-a"], 30);
    let now = unix(100);
    let mut gate = WarmupGate::new(secs(15), now);

    // Every discovered node is observed, but no heartbeat landed on this
    // process: the state of every replica the heartbeats did not pin to.
    registry.observe("node-a", now);

    assert!(
        warm(&mut gate, &registry, now),
        "a gate that counts only heartbeats delivered to its own process leaves every \
         other replica cold forever"
    );
}

#[test]
fn an_unabsorbed_roster_shuts_the_gate_observation_alone_would_have_opened() {
    let mut registry = Registry::new(&["node-a"], 30);
    let now = unix(100);
    let mut gate = WarmupGate::new(secs(15), now);

    registry.observe("node-a", now);
    gate.roster_not_absorbed("node-a", now);
    assert!(
        !warm(&mut gate, &registry, now),
        "the registry observed node-a, but its sandboxes never reached the binding \
         store, so a miss is not absence"
    );
    assert!(
        !warm(&mut gate, &registry, now.plus(secs(20))),
        "and not past the warm-up deadline either, while node-a is still reporting"
    );

    gate.roster_absorbed("node-a", &registry.read(now), now);
    assert!(
        warm(&mut gate, &registry, now),
        "the roster landed; the warm-up gate has nothing left to wait for"
    );
}

#[test]
fn a_veto_stops_holding_the_gate_once_the_node_stops_reporting() {
    let mut registry = Registry::new(&["node-a"], 30);
    let now = unix(100);
    // A window far longer than the report TTL, so only liveness can end this veto.
    let mut gate = WarmupGate::new(secs(300), now);

    registry.observe("node-a", now);
    gate.roster_not_absorbed("node-a", now);
    assert!(
        !warm(&mut gate, &registry, now),
        "node-a's roster is unabsorbed"
    );

    assert!(
        warm(&mut gate, &registry, now.plus(secs(31))),
        "node-a has not heartbeated within its report TTL: this replica can no longer \
         claim its sandboxes are real, and a permanent refusal is worse than absence"
    );
}

#[test]
fn a_veto_expires_on_the_warmup_window_even_while_a_shared_observation_stays_fresh() {
    let mut registry = Registry::new(&["node-a"], 30);
    let now = unix(100);
    let mut gate = WarmupGate::new(secs(15), now);

    registry.observe("node-a", now);
    gate.roster_not_absorbed("node-a", now);

    // A heartbeat this process never saw, arriving through the shared store.
    let later = now.plus(secs(31));
    registry.observe("node-a", later);

    assert!(
        warm(&mut gate, &registry, later),
        "node-a looks fresh, but no failure has renewed the veto for a window: a veto \
         this replica cannot refresh must not outlive one"
    );
}

#[test]
fn a_fresh_failure_renews_the_veto_past_the_deadline() {
    let mut registry = Registry::new(&["node-a"], 30);
    let now = unix(100);
    let mut gate = WarmupGate::new(secs(15), now);

    registry.observe("node-a", now);
    gate.roster_not_absorbed("node-a", now);

    let renewed_at = now.plus(secs(29));
    registry.observe("node-a", renewed_at);
    gate.roster_not_absorbed("node-a", renewed_at);

    assert!(
        !warm(&mut gate, &registry, renewed_at.plus(secs(14))),
        "node-a is still reporting and its roster still does not land, so the warm-up gate stays \
         shut a full window past the renewal"
    );
    assert!(
        warm(&mut gate, &registry, renewed_at.plus(secs(15))),
        "and opens one window after the last failure, not one after the first"
    );
}

#[test]
fn an_unabsorbed_roster_on_one_node_withholds_absence_for_sandboxes_on_every_node() {
    let mut registry = Registry::new(&["node-a", "node-b"], 30);
    let now = unix(100);
    let mut gate = WarmupGate::new(secs(15), now);

    registry.observe("node-a", now);
    registry.observe("node-b", now);
    gate.roster_absorbed("node-a", &registry.read(now), now);
    gate.roster_not_absorbed("node-b", now);

    assert!(
        !warm(&mut gate, &registry, now),
        "the warm-up gate is one answer for the whole replica: node-a's roster landed, but a miss \
         on one of its sandboxes is still withheld while node-b's roster is missing"
    );
    assert!(
        warm(&mut gate, &registry, now.plus(secs(31))),
        "once node-b stops reporting, node-a's misses are answerable again"
    );
}

#[test]
fn a_node_that_left_discovery_stops_holding_the_gate_shut() {
    let mut registry = Registry::new(&["node-a", "node-b"], 30);
    let now = unix(100);
    let mut gate = WarmupGate::new(secs(15), now);
    registry.observe("node-a", now);
    registry.observe("node-b", now);
    gate.roster_absorbed("node-a", &registry.read(now), now);
    gate.roster_not_absorbed("node-b", now);
    assert!(
        !warm(&mut gate, &registry, now),
        "node-b's roster is unabsorbed"
    );

    registry.set(&["node-a"]);

    assert!(
        warm(&mut gate, &registry, now),
        "an undiscovered node has no sandboxes this cluster can be asked about"
    );
}

#[test]
fn stays_open_when_a_new_node_appears() {
    let mut registry = Registry::new(&["node-a"], 30);
    let now = unix(100);
    let mut gate = WarmupGate::new(secs(15), now);
    heartbeat(&mut registry, &mut gate, "node-a", now);
    assert!(warm(&mut gate, &registry, now), "expected the warm-up gate to open");

    registry.set(&["node-a", "node-b"]);

    assert!(
        warm(&mut gate, &registry, now),
        "a newly discovered node must not reopen warm-up"
    );
}

#[test]
fn rebase_deadline_moves_when_the_deadline_falls() {
    // One node reports while another remains silent so only the deadline can open.
    let mut registry = Registry::new(&["node-a", "node-b"], 30);
    // Start with a deadline already consumed before listener bind.
    let constructed_at = unix(0);
    let mut gate = WarmupGate::new(secs(15), constructed_at);
    heartbeat(&mut registry, &mut gate, "node-a", constructed_at);
    assert!(
        warm(&mut gate, &registry, constructed_at.plus(secs(15))),
        "sanity: without a rebase the original deadline would already have passed"
    );

    let bound_at = unix(1_000);
    let mut registry = Registry::new(&["node-a", "node-b"], 30);
    let mut gate = WarmupGate::new(secs(15), constructed_at);
    heartbeat(&mut registry, &mut gate, "node-a", constructed_at);
    gate.rebase_deadline(bound_at, secs(15));

    assert!(
        !warm(&mut gate, &registry, bound_at.plus(secs(14))),
        "the rebased deadline must still hold the warm-up gate shut this close to it"
    );
    assert!(
        warm(&mut gate, &registry, bound_at.plus(secs(15))),
        "the rebased deadline, not the original construction-time one, must be what opens \
         the warm-up gate"
    );
}

#[test]
fn an_empty_window_is_the_default_window() {
    assert_eq!(
        WarmupGate::effective_window(Span::zero()).secs,
        DEFAULT_WARMUP_TIMEOUT_SECS
    );
    assert_eq!(DEFAULT_WARMUP_TIMEOUT_SECS, 15);
    assert_eq!(WarmupGate::effective_window(Span { secs: 0, nanos: 1 }).nanos, 1);
}

#[test]
fn a_veto_holds_from_the_later_of_its_stamp_and_the_deadline() {
    let window = secs(10);
    assert!(WarmupGate::veto_in_force(unix(5), unix(20), window, unix(29)));
    assert!(!WarmupGate::veto_in_force(unix(5), unix(20), window, unix(30)));
    assert!(WarmupGate::veto_in_force(unix(25), unix(20), window, unix(34)));
    assert!(!WarmupGate::veto_in_force(unix(25), unix(20), window, unix(35)));
}

#[test]
fn a_report_from_the_future_still_counts_as_reporting() {
    let reading = |freshness| NodeReading {
        node_id: "node-a".to_string(),
        observed: true,
        freshness,
    };
    assert!(WarmupGate::node_still_reporting(&reading(Some(
        SnapshotFreshness::ClockSkew
    ))));
    assert!(WarmupGate::node_still_reporting(&reading(Some(
        SnapshotFreshness::Fresh
    ))));
    assert!(!WarmupGate::node_still_reporting(&reading(Some(
        SnapshotFreshness::Stale
    ))));
    assert!(!WarmupGate::node_still_reporting(&reading(None)));
}

#[test]
fn a_veto_shuts_a_warm_gate_and_the_gate_is_warm_again_after_it() {
    let mut registry = Registry::new(&["node-a"], 30);
    let now = unix(100);
    let mut gate = WarmupGate::new(secs(15), now);
    heartbeat(&mut registry, &mut gate, "node-a", now);
    assert!(warm(&mut gate, &registry, now));

    gate.roster_not_absorbed("node-a", now);
    assert!(gate.holds_an_unabsorbed_roster(&registry.read(now), now));
    assert!(!warm(&mut gate, &registry, now));

    registry.set(&[]);
    assert!(warm(&mut gate, &registry, now), "the latch is one-way");
}
