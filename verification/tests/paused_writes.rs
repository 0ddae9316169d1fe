//! The paused registry as a state machine: each write on the one row it meets, and what its caller
//! is told.

use aenv_api::ids::{ExecutionId, SandboxId};
use aenv_api::orchestrator::paused_registry::postgres::row::RegistryRow;
use aenv_api::orchestrator::paused_registry::postgres::schema::{
    closes_connection, counted, migrate, preflight, refusal_message, PreflightStep, ViolationsRead,
    SCHEMA_DDL,
};
use aenv_api::orchestrator::paused_registry::postgres::sql;
use aenv_api::orchestrator::paused_registry::postgres::statements::{
    self, ClaimRequest, PauseRequest, RunningReport,
};
use aenv_api::orchestrator::paused_registry::postgres::reclaim::DiscardBreaker;
use aenv_api::orchestrator::paused_registry::postgres::table::{
    discard_or_roll_back, release_expired,
};
use aenv_api::orchestrator::paused_registry::postgres::tasks::{
    background_tasks, paused_registry_background_tasks, PausedRegistryBackendKind, TaskPlan,
};
use aenv_api::orchestrator::paused_registry::postgres::writes::{
    self, classify_refused, classify_refused_pause, claim_sql, prepare_pause, read_begun,
    running_holder, ClaimStep,
};
use aenv_api::orchestrator::paused_registry::types::{
    BeganPause, ConflictReason, DeadlineRenewalOutcome, MarkRunningOutcome, PausedRegistryError,
    PausedRegistryState, PausedSandboxEntry, ReleasedHoldings, ResumeClaim, SandboxMetadata,
    SnapshotId,
};
use aenv_api::time::{Span, Timestamp};
use uuid::Uuid;

const CLUSTER: u128 = 0xc1;

fn fresh() -> u128 {
    Uuid::new_v4().as_u128()
}

fn new_execution() -> ExecutionId {
    ExecutionId { number: fresh() }
}

fn new_snapshot() -> SnapshotId {
    SnapshotId { number: fresh() }
}

/// One sandbox's slot in the registry, a clock, and how long leases last.
struct Registry {
    slot: Option<RegistryRow>,
    clock: i64,
    ttl: Span,
    serving: Option<bool>,
}

impl Registry {
    fn new(ttl_secs: u64) -> Self {
        Registry {
            slot: None,
            clock: 1_000,
            ttl: Span::from_secs(ttl_secs),
            serving: None,
        }
    }

    fn now(&self) -> Timestamp {
        Timestamp::from_unix(self.clock)
    }

    fn at(&self, offset: i64) -> Option<Timestamp> {
        Some(Timestamp::from_unix(self.clock + offset))
    }

    fn entry(&self) -> Option<PausedSandboxEntry> {
        self.slot.as_ref().filter(|row| row.cluster_id == CLUSTER).map(|row| PausedSandboxEntry {
            sandbox_id: row.sandbox_id,
            cluster_id: row.cluster_id,
            state: row.state,
            generation: row.generation,
            origin_node_id: row.origin_node_id.clone(),
            claimed_by_node_id: row.claimed_by_node_id.clone(),
            snapshot_id: row.snapshot_id,
            metadata: None,
            execution_id: row.execution_id,
            paused_at: row.paused_at,
            updated_at: row.updated_at,
        })
    }

    fn row(&self) -> &RegistryRow {
        self.slot.as_ref().expect("the row should exist")
    }

    fn begin_pause(
        &mut self,
        node: &str,
        execution: ExecutionId,
    ) -> Result<BeganPause, PausedRegistryError> {
        let id = SandboxId { number: 1 };
        let entry = PausedSandboxEntry {
            sandbox_id: id,
            cluster_id: CLUSTER,
            state: PausedRegistryState::Publishing,
            generation: 0,
            origin_node_id: node.to_string(),
            claimed_by_node_id: None,
            snapshot_id: None,
            metadata: Some(SandboxMetadata {
                id,
                execution_id: execution,
                document: "{}".to_string(),
            }),
            execution_id: Some(execution),
            paused_at: self.now(),
            updated_at: self.now(),
        };
        let request: PauseRequest = prepare_pause(CLUSTER, &entry, true)?;
        let now = self.now();
        match statements::begin_pause(&mut self.slot, &request, self.ttl, now) {
            Some(began) => writes::begin_pause(
                id,
                began.generation,
                began
                    .previous_snapshot_id
                    .map(|s| Uuid::from_u128(s.number).to_string()),
            ),
            None => {
                let owner = self
                    .slot
                    .as_ref()
                    .map(|row| Uuid::from_u128(row.cluster_id).to_string());
                Err(classify_refused_pause(CLUSTER, &id.text(), owner.as_deref()))
            }
        }
    }

    fn complete_pause(
        &mut self,
        generation: i64,
        snapshot: SnapshotId,
    ) -> Result<(), PausedRegistryError> {
        let (ttl, now) = (self.ttl, self.now());
        let rows = self.slot.as_mut().map_or(0, |row| {
            statements::complete_pause(row, CLUSTER, generation, snapshot, ttl, now) as u64
        });
        writes::complete_pause(SandboxId { number: 1 }, generation, rows)
    }

    fn mark_local_only(&mut self, generation: i64) -> Result<(), PausedRegistryError> {
        let (ttl, now) = (self.ttl, self.now());
        let rows = self.slot.as_mut().map_or(0, |row| {
            statements::mark_local_only(row, CLUSTER, generation, ttl, now) as u64
        });
        writes::mark_local_only(SandboxId { number: 1 }, generation, rows)
    }

    fn claim(&mut self, node: &str, execution: ExecutionId) -> Result<PausedRegistryState, ResumeClaim> {
        let (ttl, now) = (self.ttl, self.now());
        let durable_only = self.serving != Some(true);
        let claimed = self.slot.as_mut().and_then(|row| {
            let request = ClaimRequest {
                durable_only,
                cluster_id: CLUSTER,
                node_id: node,
                execution_id: execution,
            };
            statements::claim_for_resume(row, request, ttl, now)
        });
        match claimed {
            Some(previous) => Ok(previous),
            None => {
                assert!(matches!(writes::claim_for_resume(None), Ok(ClaimStep::ReadRow)));
                Err(writes::claim_for_resume_not_claimed(self.entry()))
            }
        }
    }

    fn mark_running(
        &mut self,
        node: &str,
        holder: &str,
        execution: ExecutionId,
        expires_at: Option<Timestamp>,
    ) -> Result<MarkRunningOutcome, PausedRegistryError> {
        let (ttl, now) = (self.ttl, self.now());
        let holder = running_holder(node, holder);
        let rows = self.slot.as_mut().map_or(0, |row| {
            let report = RunningReport {
                cluster_id: CLUSTER,
                claimant: node,
                holder,
                execution_id: execution,
                expires_at,
            };
            statements::mark_running(row, report, ttl, now) as u64
        });
        let current = self.entry();
        writes::mark_running(SandboxId { number: 1 }, node, holder, rows, current.as_ref())
    }

    fn renew_deadline(
        &mut self,
        execution: ExecutionId,
        expires_at: Option<Timestamp>,
    ) -> DeadlineRenewalOutcome {
        let now = self.now();
        let rows = self.slot.as_mut().map_or(0, |row| {
            statements::renew_sandbox_deadline(row, CLUSTER, execution, expires_at, now) as u64
        });
        writes::renew_sandbox_deadline(rows, self.slot.is_some())
    }

    fn release_claim(&mut self, generation: i64) -> bool {
        let (ttl, now) = (self.ttl, self.now());
        let rows = self.slot.as_mut().map_or(0, |row| {
            statements::release_claim(row, CLUSTER, generation, ttl, now) as u64
        });
        writes::release_claim(rows)
    }

    fn remove(&mut self, generation: i64) -> bool {
        let hit = self
            .slot
            .as_ref()
            .is_some_and(|row| statements::removes(row, CLUSTER, generation));
        if hit {
            self.slot = None;
        }
        writes::remove(hit as u64)
    }

    fn reclaim(&mut self) -> ReleasedHoldings {
        let now = self.now();
        let running = self
            .slot
            .as_mut()
            .map_or(0, |row| statements::reclaim_running(row, CLUSTER, now) as u64);
        let resuming = self
            .slot
            .as_mut()
            .map_or(0, |row| statements::reclaim_resuming(row, CLUSTER, now) as u64);
        let discarded = self
            .slot
            .as_ref()
            .is_some_and(|row| statements::reclaim_discards(row, CLUSTER, now));
        if discarded {
            self.slot = None;
        }
        aenv_api::orchestrator::paused_registry::postgres::reclaim::reclaim_expired_holdings(
            running,
            resuming,
            discarded as u64,
        )
    }

    fn pause_durably(&mut self, node: &str) -> SnapshotId {
        let began = self.begin_pause(node, new_execution()).expect("begin");
        let snapshot = new_snapshot();
        self.complete_pause(began.generation, snapshot).expect("complete");
        snapshot
    }

    fn bring_to_running_with_snapshot(&mut self, node: &str, expires_at: Option<Timestamp>) -> ExecutionId {
        self.pause_durably(node);
        let run = new_execution();
        self.claim(node, run).expect("claimed");
        assert_eq!(
            self.mark_running(node, node, run, expires_at).expect("adopted"),
            MarkRunningOutcome::Adopted
        );
        run
    }
}

#[test]
fn begin_pause_then_complete_pause_lands_on_paused_with_a_snapshot() {
    let mut registry = Registry::new(90);
    let began = registry.begin_pause("node-a", new_execution()).expect("begin");
    assert_eq!(began.generation, 1);
    assert!(began.previous_snapshot_id.is_none());

    let snapshot = new_snapshot();
    registry.complete_pause(began.generation, snapshot).expect("complete");
    let row = registry.row();
    assert_eq!(row.state, PausedRegistryState::Paused);
    assert_eq!(row.snapshot_id, Some(snapshot));
    assert!(row.execution_id.is_none(), "a paused row carries no incarnation");
}

#[test]
fn begin_pause_then_mark_local_only_stays_parked_with_no_snapshot() {
    let mut registry = Registry::new(90);
    let began = registry.begin_pause("node-a", new_execution()).expect("begin");
    registry.mark_local_only(began.generation).expect("parked");
    assert_eq!(registry.row().state, PausedRegistryState::LocalOnly);
    assert!(registry.row().snapshot_id.is_none());
}

#[test]
fn two_refusals_are_told_apart() {
    let mut registry = Registry::new(90);
    registry.begin_pause("node-a", new_execution()).expect("begin");
    assert!(matches!(
        registry.complete_pause(999, new_snapshot()),
        Err(PausedRegistryError::GenerationConflict { expected: 999, .. })
    ));
    assert!(matches!(
        registry.mark_local_only(999),
        Err(PausedRegistryError::GenerationConflict { expected: 999, .. })
    ));

    let mut registry = Registry::new(90);
    let first = new_execution();
    registry.begin_pause("node-a", first).expect("begin");
    registry
        .mark_running("node-a", "node-a", new_execution(), None)
        .expect("adopted");
    assert!(matches!(
        registry.begin_pause("node-a", first),
        Err(PausedRegistryError::ExecutionFenced { .. })
    ));
}

#[test]
fn claiming_an_untracked_sandbox_reports_not_found() {
    let mut registry = Registry::new(90);
    assert!(matches!(
        registry.claim("node-b", new_execution()),
        Err(ResumeClaim::NotFound)
    ));
}

#[test]
fn claiming_a_paused_sandbox_succeeds_and_reports_paused_as_the_previous_state() {
    let mut registry = Registry::new(90);
    registry.pause_durably("node-a");
    let execution = new_execution();
    assert_eq!(
        registry.claim("node-b", execution).expect("claimed"),
        PausedRegistryState::Paused
    );
    let row = registry.row();
    assert_eq!(row.state, PausedRegistryState::Resuming);
    assert_eq!(row.claimed_by_node_id.as_deref(), Some("node-b"));
    assert_eq!(row.execution_id, Some(execution));
}

#[test]
fn a_lapsed_local_pause_is_claimable_only_past_grace() {
    let mut registry = Registry::new(50);
    let run = registry.bring_to_running_with_snapshot("node-a", None);
    let again = registry.begin_pause("node-a", run).expect("the same incarnation");
    assert!(again.previous_snapshot_id.is_some());
    registry.mark_local_only(again.generation).expect("parked");
    assert!(registry.row().snapshot_id.is_some(), "the earlier snapshot stays");

    registry.clock += 51;
    registry.serving = Some(false);
    assert!(matches!(
        registry.claim("node-b", new_execution()),
        Err(ResumeClaim::NotReady { origin_node_id }) if origin_node_id == "node-a"
    ));
    registry.serving = Some(true);
    assert_eq!(
        registry.claim("node-b", new_execution()).expect("claimed"),
        PausedRegistryState::LocalOnly
    );
}

#[test]
fn claiming_a_running_sandbox_is_refused_as_live_elsewhere_however_long_its_lease_has_lapsed() {
    let mut registry = Registry::new(50);
    registry.bring_to_running_with_snapshot("node-a", None);
    registry.serving = Some(true);
    registry.clock += 1_000_000;
    match registry.claim("node-b", new_execution()) {
        Err(ResumeClaim::Conflict { origin_node_id, reason }) => {
            assert_eq!(origin_node_id, "node-a");
            assert_eq!(reason, ConflictReason::LiveElsewhere);
        }
        other => panic!("expected a conflict, got {other:?}"),
    }
}

#[test]
fn a_row_that_is_free_again_lost_its_claim() {
    let mut registry = Registry::new(90);
    registry.pause_durably("node-a");
    match writes::claim_for_resume_not_claimed(registry.entry()) {
        ResumeClaim::Conflict { origin_node_id, reason } => {
            assert_eq!(origin_node_id, "node-a");
            assert_eq!(reason, ConflictReason::ClaimLost);
        }
        other => panic!("expected a conflict, got {other:?}"),
    }
}

#[test]
fn a_conflict_names_the_claimant_of_a_resuming_row() {
    let mut registry = Registry::new(90);
    registry.pause_durably("node-a");
    registry.claim("node-b", new_execution()).expect("claimed");
    assert!(matches!(
        registry.claim("node-c", new_execution()),
        Err(ResumeClaim::Conflict { origin_node_id, .. }) if origin_node_id == "node-b"
    ));
}

#[test]
fn mark_running_writes_the_holder_into_origin_node_id_while_guarding_on_the_claimant() {
    let mut registry = Registry::new(90);
    registry.pause_durably("node-a");
    let run = new_execution();
    registry.claim("api-replica-7", run).expect("claimed");
    assert_eq!(
        registry
            .mark_running("api-replica-7", "real-machine-3", run, None)
            .expect("adopted"),
        MarkRunningOutcome::Adopted
    );
    assert_eq!(registry.row().origin_node_id, "real-machine-3");
    assert!(registry.row().claimed_by_node_id.is_none());
    let started = registry.row().execution_started_at.expect("started");

    registry.clock += 5;
    assert_eq!(
        registry
            .mark_running("api-replica-7", "real-machine-3", run, None)
            .expect("a retry"),
        MarkRunningOutcome::Adopted
    );
    assert!(registry
        .row()
        .execution_started_at
        .expect("started")
        .same_instant(started));
}

#[test]
fn mark_running_wakes_a_locally_parked_sandbox_with_no_prior_claim() {
    let mut registry = Registry::new(90);
    registry.begin_pause("node-a", new_execution()).expect("begin");
    registry.mark_local_only(1).expect("parked");
    assert_eq!(
        registry
            .mark_running("node-a", "  ", new_execution(), None)
            .expect("adopted"),
        MarkRunningOutcome::Adopted
    );
    assert_eq!(registry.row().origin_node_id, "node-a", "a blank holder is the claimant");
}

#[test]
fn mark_running_an_untracked_sandbox_reports_untracked_and_creates_no_row() {
    let mut registry = Registry::new(90);
    assert_eq!(
        registry
            .mark_running("node-a", "node-a", new_execution(), None)
            .expect("an answer"),
        MarkRunningOutcome::Untracked
    );
    assert!(registry.slot.is_none());
}

#[test]
fn mark_running_a_claim_another_node_holds_reports_held_elsewhere() {
    let mut registry = Registry::new(90);
    registry.pause_durably("node-a");
    registry.claim("node-b", new_execution()).expect("claimed");
    assert_eq!(
        registry
            .mark_running("node-c", "node-c", new_execution(), None)
            .expect("an answer"),
        MarkRunningOutcome::HeldElsewhere
    );
}

#[test]
fn mark_running_a_stale_incarnation_is_execution_fenced() {
    let mut registry = Registry::new(90);
    registry.pause_durably("node-a");
    registry.claim("node-b", new_execution()).expect("claimed");
    assert!(matches!(
        registry.mark_running("node-b", "node-b", new_execution(), None),
        Err(PausedRegistryError::ExecutionFenced { .. })
    ));

    let mut registry = Registry::new(90);
    registry.bring_to_running_with_snapshot("node-a", None);
    assert!(matches!(
        registry.mark_running("node-a", "node-a", new_execution(), None),
        Err(PausedRegistryError::ExecutionFenced { .. })
    ));
    assert_eq!(
        registry
            .mark_running("node-c", "node-c", new_execution(), None)
            .expect("an answer"),
        MarkRunningOutcome::HeldElsewhere
    );
    assert_eq!(registry.row().origin_node_id, "node-a");
}

#[test]
fn renewing_a_deadline_is_fenced_by_the_incarnation() {
    let mut registry = Registry::new(90);
    assert_eq!(
        registry.renew_deadline(new_execution(), None),
        DeadlineRenewalOutcome::NotTracked
    );
    let run = registry.bring_to_running_with_snapshot("node-a", None);
    assert_eq!(
        registry.renew_deadline(new_execution(), registry.at(5)),
        DeadlineRenewalOutcome::Superseded
    );
    assert_eq!(
        registry.renew_deadline(run, registry.at(3600)),
        DeadlineRenewalOutcome::Renewed
    );
    assert_eq!(registry.row().origin_node_id, "node-a");
    assert_eq!(registry.row().state, PausedRegistryState::Running);
    assert_eq!(registry.row().sandbox_expires_at.expect("a deadline").secs, 1_000 + 3600);
}

#[test]
fn leases_are_renewed_only_by_their_holder() {
    let mut registry = Registry::new(50);
    registry.bring_to_running_with_snapshot("node-a", None);
    registry.clock += 100;
    let (ttl, now) = (registry.ttl, registry.now());
    let row = registry.slot.as_mut().expect("a row");
    assert!(!statements::renew_lease(row, CLUSTER, "node-b", None, ttl, now));
    assert!(!statements::renew_live_lease(row, CLUSTER, "node-b", ttl, now));
    assert!(!statements::renew_parked_lease(row, CLUSTER, "node-a", ttl, now));
    assert!(!statements::renew_live_lease(row, 0xbad, "node-a", ttl, now));
    assert!(row.lease_expired(now));
    assert!(statements::renew_live_lease(row, CLUSTER, "node-a", ttl, now));
    assert!(!row.lease_expired(now));
    let expires = Some(Timestamp::from_unix(77));
    assert!(statements::renew_lease(row, CLUSTER, "node-a", expires, ttl, now));
    assert_eq!(row.sandbox_expires_at.expect("a deadline").secs, 77);
}

#[test]
fn remove_deletes_a_matching_generation_and_reports_no_match_otherwise() {
    let mut registry = Registry::new(90);
    registry.pause_durably("node-a");
    assert!(!registry.remove(999));
    assert!(registry.slot.is_some());
    let generation = registry.row().generation;
    assert!(registry.remove(generation));
    assert!(registry.slot.is_none());
}

#[test]
fn release_claim_returns_a_resuming_row_to_paused() {
    let mut registry = Registry::new(90);
    registry.pause_durably("node-a");
    registry.claim("node-b", new_execution()).expect("claimed");
    let generation = registry.row().generation;
    assert!(!registry.release_claim(generation - 1));
    assert!(registry.release_claim(generation));
    assert_eq!(registry.row().state, PausedRegistryState::Paused);
    assert!(registry.row().claimed_by_node_id.is_none());
    assert!(registry.claim("node-c", new_execution()).is_ok());
}

#[test]
fn a_dead_nodes_holdings_are_released_or_discarded() {
    let mut registry = Registry::new(90);
    registry.pause_durably("node-a");
    registry.claim("api-replica-dead", new_execution()).expect("claimed");
    let now = registry.now();
    let row = registry.slot.as_mut().expect("a row");
    assert!(!statements::release_holding(row, CLUSTER, "node-a", now));
    assert!(!statements::release_discards(row, CLUSTER, "api-replica-dead"));
    assert!(statements::release_holding(row, CLUSTER, "api-replica-dead", now));
    assert_eq!(row.state, PausedRegistryState::Paused);

    let mut registry = Registry::new(90);
    let run = new_execution();
    registry.begin_pause("node-a", run).expect("begin");
    registry.mark_running("node-a", "node-a", run, None).expect("adopted");
    let row = registry.row();
    assert!(statements::release_discards(row, CLUSTER, "node-a"));
    assert!(!statements::release_discards(row, CLUSTER, "node-b"));
}

#[test]
fn a_resuming_row_is_reclaimed_on_its_lease_alone() {
    let mut registry = Registry::new(50);
    let far = registry.at(1_000_000);
    let run = registry.bring_to_running_with_snapshot("node-a", far);
    let began = registry.begin_pause("node-a", run).expect("begin");
    registry.complete_pause(began.generation, new_snapshot()).expect("complete");
    registry.claim("node-b", new_execution()).expect("claimed");
    assert_eq!(
        registry.reclaim(),
        ReleasedHoldings { released: 0, discarded: 0 },
        "a live lease survives a pass"
    );
    registry.clock += 51;
    assert_eq!(registry.reclaim(), ReleasedHoldings { released: 1, discarded: 0 });
    assert_eq!(registry.row().state, PausedRegistryState::Paused);
    assert_eq!(registry.reclaim(), ReleasedHoldings { released: 0, discarded: 0 });
}

#[test]
fn a_running_row_is_reclaimed_only_past_lease_and_deadline() {
    let mut registry = Registry::new(50);
    let deadline = registry.at(3600);
    registry.bring_to_running_with_snapshot("node-a", deadline);
    registry.clock += 200;
    assert_eq!(registry.reclaim(), ReleasedHoldings { released: 0, discarded: 0 });
    assert_eq!(registry.row().state, PausedRegistryState::Running);
    registry.clock += 3600;
    assert_eq!(registry.reclaim(), ReleasedHoldings { released: 1, discarded: 0 });
    assert_eq!(registry.row().state, PausedRegistryState::Paused);
}

#[test]
fn a_running_row_with_no_snapshot_and_a_passed_deadline_is_discarded() {
    let mut registry = Registry::new(50);
    let run = new_execution();
    registry.begin_pause("node-a", run).expect("begin");
    let past = registry.at(-10);
    registry.mark_running("node-a", "node-a", run, past).expect("adopted");
    assert!(registry.row().snapshot_id.is_none());
    registry.clock += 51;
    assert_eq!(registry.reclaim(), ReleasedHoldings { released: 0, discarded: 1 });
    assert!(registry.slot.is_none(), "a discarded row must be gone entirely");
}

#[test]
fn many_replicas_racing_to_resume_one_sandbox_start_exactly_one_run() {
    let mut registry = Registry::new(90);
    registry.pause_durably("node-a");
    let runs: Vec<ExecutionId> = (0..12).map(|_| new_execution()).collect();
    let winners: Vec<usize> = (0..12)
        .filter(|i| registry.claim(&format!("api-replica-{i}"), runs[*i]).is_ok())
        .collect();
    assert_eq!(winners, [0]);
    for i in 1..12 {
        let outcome = registry
            .mark_running(&format!("api-replica-{i}"), "real-machine-3", runs[i], None)
            .expect("an answer");
        assert_ne!(outcome, MarkRunningOutcome::Adopted);
    }
    assert_eq!(
        registry
            .mark_running("api-replica-0", "real-machine-3", runs[0], None)
            .expect("an answer"),
        MarkRunningOutcome::Adopted
    );
}

#[test]
fn entering_grace_moves_a_lease_by_the_downtime_and_the_grace_time() {
    let mut registry = Registry::new(90);
    registry.pause_durably("node-a");
    let row = registry.slot.as_mut().expect("a row");
    let before = row.lease_expires_at.expect("a lease").secs;
    let (downtime, ttl) = (Span::from_secs(3600), Span::from_secs(90));
    assert!(!statements::extend_lease(row, 0xbad, downtime, ttl));
    assert!(statements::extend_lease(row, CLUSTER, downtime, ttl));
    assert_eq!(row.lease_expires_at.expect("a lease").secs, before + 3690);
}

fn bare_entry(metadata: Option<SandboxMetadata>) -> PausedSandboxEntry {
    PausedSandboxEntry {
        sandbox_id: SandboxId { number: 1 },
        cluster_id: CLUSTER,
        state: PausedRegistryState::Publishing,
        generation: 0,
        origin_node_id: "node-a".to_string(),
        claimed_by_node_id: None,
        snapshot_id: None,
        metadata,
        execution_id: Some(ExecutionId { number: 8 }),
        paused_at: Timestamp::from_unix(0),
        updated_at: Timestamp::from_unix(0),
    }
}

fn reason_of(err: PausedRegistryError) -> String {
    match err {
        PausedRegistryError::InvalidRecord { sandbox_id, reason } => {
            assert_eq!(sandbox_id, "00000000-0000-0000-0000-000000000001");
            reason
        }
        other => panic!("expected an invalid record, got {other:?}"),
    }
}

#[test]
fn a_pause_is_fenced_on_the_execution_in_its_record() {
    let record = || SandboxMetadata {
        id: SandboxId { number: 1 },
        execution_id: ExecutionId { number: 9 },
        document: "{}".to_string(),
    };
    let request = prepare_pause(CLUSTER, &bare_entry(Some(record())), true).expect("a request");
    assert_eq!(request.execution_id, ExecutionId { number: 9 });
    assert_eq!(request.cluster_id, CLUSTER);
    assert_eq!(request.origin_node_id, "node-a");
    assert_eq!(
        reason_of(prepare_pause(CLUSTER, &bare_entry(None), true).expect_err("no record")),
        "sandbox metadata is missing"
    );
    assert_eq!(
        reason_of(
            prepare_pause(CLUSTER, &bare_entry(Some(record())), false).expect_err("no wire form")
        ),
        "sandbox metadata is not serializable"
    );
}

#[test]
fn a_begun_pause_names_the_snapshot_before_it() {
    let id = SandboxId { number: 1 };
    assert_eq!(
        writes::begin_pause(id, 4, None).expect("begun"),
        BeganPause { generation: 4, previous_snapshot_id: None }
    );
    let text = SandboxId { number: 5 }.text();
    assert_eq!(
        writes::begin_pause(id, 4, Some(text)).expect("begun"),
        BeganPause { generation: 4, previous_snapshot_id: Some(SnapshotId { number: 5 }) }
    );
    assert_eq!(
        reason_of(writes::begin_pause(id, 4, Some("x".to_string())).expect_err("no snapshot")),
        "snapshot id is not a uuid"
    );
    assert!(read_begun("s", 1, Some(None)).is_err());
}

#[test]
fn a_refused_pause_is_fenced_or_belongs_to_another_cluster() {
    let fenced = |owner| {
        matches!(
            classify_refused("s", true, "ab-CD", owner),
            PausedRegistryError::ExecutionFenced { sandbox_id } if sandbox_id == "s"
        )
    };
    assert!(fenced(None));
    assert!(fenced(Some("AB-cd")));
    assert!(!fenced(Some("ab-ce")));
    assert!(!fenced(Some("ab-CD ")));
    match classify_refused("s", true, "a", Some("b")) {
        PausedRegistryError::InvalidRecord { reason, .. } => assert_eq!(
            reason,
            "registry already holds this sandbox for a different cluster"
        ),
        other => panic!("expected an invalid record, got {other:?}"),
    }
    match classify_refused_pause(CLUSTER, "not-a-uuid", None) {
        PausedRegistryError::InvalidRecord { reason, .. } => {
            assert_eq!(reason, "sandbox id is not a uuid")
        }
        other => panic!("expected an invalid record, got {other:?}"),
    }
}

#[test]
fn claim_statements_differ_in_what_they_may_take() {
    assert_eq!(claim_sql(true), sql::claim_for_resume_durable_only_sql());
    assert_eq!(claim_sql(false), sql::claim_for_resume_sql());
    assert!(claim_sql(false).contains(
        "AND (state = 'paused'\n         OR (state IN ('publishing', 'local_only') AND COALESCE(lease_expires_at, updated_at) < now()))\n    RETURNING sandbox_id::text"
    ));
    assert!(claim_sql(true).contains("AND state = 'paused'\n    RETURNING sandbox_id::text"));
    assert!(claim_sql(true).ends_with("\n  FROM claimed JOIN previous ON TRUE"));
}

#[test]
fn statements_are_built_from_the_canonical_columns() {
    assert_eq!(
        sql::get_sql(),
        format!(
            "SELECT {}\n  FROM paused_sandboxes\n WHERE sandbox_id = $1::uuid AND cluster_id = $2::uuid",
            sql::ENTRY_COLUMNS
        )
    );
    assert_eq!(
        sql::get_many_sql(),
        format!(
            "SELECT {}\n  FROM paused_sandboxes\n WHERE cluster_id = $1::uuid AND sandbox_id = ANY($2::uuid[])",
            sql::ENTRY_COLUMNS
        )
    );
    assert_eq!(
        sql::list_all_sql(),
        format!(
            "SELECT {}\n  FROM paused_sandboxes\n WHERE cluster_id = $1::uuid",
            sql::ENTRY_COLUMNS
        )
    );
    assert!(sql::release_holdings_released_sql().ends_with(sql::LIVE_HOLDINGS_OF_NODE));
    assert!(sql::release_holdings_discarded_sql().starts_with("\nDELETE FROM paused_sandboxes"));
    assert!(sql::release_holdings_discarded_sql().ends_with(sql::LIVE_HOLDINGS_OF_NODE));
}

#[test]
fn preflight_refuses_rows_that_violate_the_identity_axis() {
    assert_eq!(preflight(&ViolationsRead::Count(0)), PreflightStep::Apply);
    assert_eq!(
        preflight(&ViolationsRead::Count(3)),
        PreflightStep::Refuse { offending: 3 }
    );
    assert_eq!(
        preflight(&ViolationsRead::Refused(Some("42P01".to_string()))),
        PreflightStep::Apply
    );
    assert_eq!(
        preflight(&ViolationsRead::Refused(Some("42703".to_string()))),
        PreflightStep::CountAllRows
    );
    assert_eq!(
        preflight(&ViolationsRead::Refused(Some("42501".to_string()))),
        PreflightStep::Fail
    );
    assert_eq!(preflight(&ViolationsRead::Refused(None)), PreflightStep::Fail);
    assert_eq!(preflight(&ViolationsRead::Failed), PreflightStep::Fail);
    assert_eq!(counted(0), PreflightStep::Apply);
    assert_eq!(counted(2), PreflightStep::Refuse { offending: 2 });
    assert!(refusal_message(12).starts_with(
        "paused_sandboxes has 12 row(s) that predate the identity axis (a live row with no execution_id"
    ));
    assert!(SCHEMA_DDL.contains("paused_sandboxes_execution_check"));
}

#[test]
fn a_failed_migration_keeps_the_error_that_matters() {
    assert!(migrate(true, None).is_ok());
    let failed = migrate(false, None).expect_err("apply failed");
    assert!(failed.from_apply);
    assert_eq!(failed.context, "ensure paused registry schema");
    let failed = migrate(true, Some("gone")).expect_err("unlock failed");
    assert!(!failed.from_apply);
    assert_eq!(failed.context, "release the paused registry schema lock");
    let failed = migrate(false, Some("gone")).expect_err("both failed");
    assert!(failed.from_apply);
    assert_eq!(
        failed.context,
        "ensure paused registry schema (releasing the schema lock also failed: gone)"
    );
    assert!(closes_connection(Some("gone")));
    assert!(!closes_connection(None));
}

#[test]
fn background_tasks_run_only_with_their_backend() {
    let all = TaskPlan { reconcile: true, reclaim: true, renewal: true };
    let none = TaskPlan { reconcile: false, reclaim: false, renewal: false };
    let postgres = PausedRegistryBackendKind::Postgres;
    assert_eq!(paused_registry_background_tasks(postgres, true, true), all);
    assert_eq!(
        paused_registry_background_tasks(postgres, true, false),
        TaskPlan { renewal: false, ..all }
    );
    assert_eq!(paused_registry_background_tasks(postgres, false, true), none);
    assert_eq!(
        paused_registry_background_tasks(PausedRegistryBackendKind::Local, true, true),
        none
    );
    assert_eq!(background_tasks(true), all);
}

fn expired(state: PausedRegistryState, snapshot: Option<SnapshotId>) -> RegistryRow {
    let long_ago = Timestamp::from_unix(10);
    RegistryRow {
        sandbox_id: SandboxId { number: fresh() },
        cluster_id: CLUSTER,
        state,
        generation: 4,
        origin_node_id: "node-a".to_string(),
        claimed_by_node_id: None,
        snapshot_id: snapshot,
        paused_at: long_ago,
        updated_at: long_ago,
        lease_expires_at: None,
        sandbox_expires_at: Some(long_ago),
        execution_id: Some(new_execution()),
        execution_started_at: Some(long_ago),
    }
}

#[test]
fn a_reclaim_transaction_counts_as_a_whole_or_not_at_all() {
    let now = Timestamp::from_unix(100);
    let table = || {
        vec![
            expired(PausedRegistryState::Running, Some(new_snapshot())),
            expired(PausedRegistryState::Resuming, Some(new_snapshot())),
            expired(PausedRegistryState::Running, None),
            expired(PausedRegistryState::LocalOnly, None),
        ]
    };
    let breaker = DiscardBreaker::default();

    let before = table();
    let (freed, counts) = release_expired(&before, CLUSTER, now);
    assert_eq!(
        (counts.running, counts.resuming, counts.candidates, counts.total),
        (1, 1, 1, 4)
    );
    let (after, outcome) =
        discard_or_roll_back(before, freed, counts, CLUSTER, now, &breaker, true, "10");
    assert_eq!(
        outcome.expect("one row is under the floor"),
        ReleasedHoldings { released: 2, discarded: 1 }
    );
    assert_eq!(
        after.iter().map(|row| row.state).collect::<Vec<_>>(),
        [
            PausedRegistryState::Paused,
            PausedRegistryState::Paused,
            PausedRegistryState::LocalOnly
        ]
    );

    let mut before = table();
    before.extend((0..10).map(|_| expired(PausedRegistryState::Running, None)));
    let states: Vec<_> = before.iter().map(|row| row.state).collect();
    let (freed, counts) = release_expired(&before, CLUSTER, now);
    assert_eq!(counts.candidates, 11);
    let (after, outcome) =
        discard_or_roll_back(before, freed, counts, CLUSTER, now, &breaker, false, "10");
    assert!(outcome.is_err());
    assert_eq!(
        after.iter().map(|row| row.state).collect::<Vec<_>>(),
        states,
        "a tripped breaker rolls back the releases too"
    );
}
