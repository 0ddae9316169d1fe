//! Reading, counting and renewing paused-registry rows.

use aenv_api::ids::{ExecutionId, SandboxId};
use aenv_api::node_registry::types::{Roster, RosterEntry};
use aenv_api::orchestrator::paused_registry::postgres::grace::{
    durable_only, enter, grace_row_at, is_new_epoch, is_serving, record_epoch_entered,
    tick_entered_grace, tick_enters_grace, WritePhase,
};
use aenv_api::orchestrator::paused_registry::postgres::lease::{
    renew_lease, renew_live_leases, renew_parked_leases, LeaseHolder,
};
use aenv_api::orchestrator::paused_registry::postgres::reads::{
    collect_decoded, collect_entries, keep_decoded, list_all, list_registry_rows_sql,
    skip_bad_list_entries, skip_bad_registry_rows, DecodedRow,
};
use aenv_api::orchestrator::paused_registry::postgres::reclaim::{
    reclaim_expired_holdings, reclaim_verdict, reclaims_now, DiscardBreaker,
};
use aenv_api::orchestrator::paused_registry::postgres::reconcile::{
    compute_reconcile, rows_by_state, statement_timeout_sql, ReconcileOutcome,
};
use aenv_api::orchestrator::paused_registry::postgres::replica_renewal::{
    candidates_from_parsed, candidates_from_rosters, ParsedRoster,
};
use aenv_api::orchestrator::paused_registry::postgres::row::{
    decode_claim, decode_entry, decode_list_entry, decode_registry_row, parse_identity,
    read_identity, ClaimRow, EntryRow, IdentityNumbers, RegistryRow,
};
use aenv_api::orchestrator::paused_registry::postgres::sql;
use aenv_api::orchestrator::paused_registry::types::{
    HeldSandbox, PausedRegistryError, PausedRegistryState, ReleasedHoldings, SandboxMetadata,
    SnapshotId,
};
use aenv_api::time::{Span, Timestamp};
use uuid::Uuid;

fn now() -> Timestamp {
    Timestamp { secs: 1_700_000_000, nanos: 500 }
}

fn ago(secs: i64) -> Timestamp {
    Timestamp { secs: now().secs - secs, nanos: now().nanos }
}

fn ahead(secs: i64) -> Timestamp {
    ago(-secs)
}

fn good_row(sandbox_id: Uuid, cluster_id: Uuid) -> EntryRow {
    EntryRow {
        sandbox_id: sandbox_id.to_string(),
        cluster_id: cluster_id.to_string(),
        state: "paused".to_string(),
        generation: 1,
        origin_node_id: "node-a".to_string(),
        claimed_by_node_id: None,
        snapshot_id: Some(Uuid::new_v4().to_string()),
        metadata: Some(SandboxMetadata {
            id: sid(sandbox_id),
            execution_id: ExecutionId { number: Uuid::new_v4().as_u128() },
            document: "{}".to_string(),
        }),
        paused_at: now(),
        updated_at: now(),
        lease_expires_at: None,
        sandbox_expires_at: None,
        execution_id: None,
        execution_started_at: None,
    }
}

fn unreadable_row(sandbox_id: Uuid, cluster_id: Uuid) -> EntryRow {
    let mut row = good_row(sandbox_id, cluster_id);
    row.state = "not_a_real_state".to_string();
    row
}

fn sid(raw: Uuid) -> SandboxId {
    SandboxId::parse_str(&raw.to_string()).unwrap()
}

#[test]
fn collect_entries_keeps_the_good_row_and_counts_the_bad_one() {
    let cluster_id = Uuid::new_v4();
    let good_id = Uuid::new_v4();
    let bad_id = Uuid::new_v4();
    let requested = vec![sid(good_id), sid(bad_id)];
    let rows = vec![
        good_row(good_id, cluster_id),
        unreadable_row(bad_id, cluster_id),
    ];

    let (rows, skipped) = collect_entries(&requested, rows);
    assert_eq!(skipped, 1, "exactly the one unreadable row must be skipped");
    assert_eq!(rows.entries.len(), 1, "the good row must still be present");
    assert!(
        rows.entries.contains_key(&sid(good_id).number),
        "the good row's own sandbox id must be the one that survived"
    );
}

#[test]
fn collect_entries_withholds_coverage_for_a_row_it_cannot_decode() {
    let cluster_id = Uuid::new_v4();
    let good_id = Uuid::new_v4();
    let bad_id = Uuid::new_v4();
    let requested = vec![sid(good_id), sid(bad_id)];
    let rows = vec![
        good_row(good_id, cluster_id),
        unreadable_row(bad_id, cluster_id),
    ];

    let (rows, _) = collect_entries(&requested, rows);
    assert!(
        !rows.covers(&requested),
        "a batch holding an undecodable row must not claim to cover it"
    );
    assert_eq!(rows.covered, vec![sid(good_id)]);
    assert!(
        !rows.covered.contains(&sid(bad_id)),
        "the undecodable row's id is exactly the one absence must not be trusted for"
    );
}

#[test]
fn collect_entries_covers_an_id_with_no_row_at_all() {
    let cluster_id = Uuid::new_v4();
    let present = Uuid::new_v4();
    let absent = Uuid::new_v4();
    let requested = vec![sid(present), sid(absent)];

    let (rows, skipped) = collect_entries(&requested, vec![good_row(present, cluster_id)]);
    assert_eq!(skipped, 0);
    assert!(rows.entries.contains_key(&sid(present).number));
    assert!(!rows.entries.contains_key(&sid(absent).number));
    assert!(
        rows.covers(&requested),
        "an absent row is an answer, not a gap in coverage"
    );
}

#[test]
fn collect_entries_covers_nothing_when_a_bad_row_cannot_be_attributed() {
    let cluster_id = Uuid::new_v4();
    let good_id = Uuid::new_v4();
    let requested = vec![sid(good_id), sid(Uuid::new_v4())];
    let mut orphan = good_row(Uuid::new_v4(), cluster_id);
    orphan.sandbox_id = "not-a-uuid".to_string();

    let (rows, skipped) = collect_entries(&requested, vec![good_row(good_id, cluster_id), orphan]);
    assert_eq!(skipped, 1);
    assert!(
        rows.covered.is_empty(),
        "an unattributable bad row makes every absence in the batch untrustworthy"
    );
    assert!(
        rows.entries.contains_key(&sid(good_id).number),
        "the rows that did decode are still returned; only coverage is withheld"
    );
}

#[test]
fn collect_entries_reports_nothing_skipped_when_every_row_decodes() {
    let cluster_id = Uuid::new_v4();
    let first = Uuid::new_v4();
    let second = Uuid::new_v4();
    let requested = vec![sid(first), sid(second)];
    let rows = vec![good_row(first, cluster_id), good_row(second, cluster_id)];

    let (rows, skipped) = collect_entries(&requested, rows);
    assert_eq!(skipped, 0);
    assert_eq!(rows.entries.len(), 2);
    assert!(rows.covers(&requested));
}

#[test]
fn skip_bad_registry_rows_keeps_the_good_row_and_counts_the_bad_one() {
    let cluster_id = Uuid::new_v4();
    let good_id = Uuid::new_v4();
    let bad_id = Uuid::new_v4();
    let rows = vec![
        good_row(good_id, cluster_id),
        unreadable_row(bad_id, cluster_id),
    ];

    let (out, skipped) = skip_bad_registry_rows(rows);
    assert_eq!(skipped, 1);
    assert_eq!(out.len(), 1);
    assert_eq!(out[0].sandbox_id.text(), good_id.to_string());
}

#[test]
fn skip_bad_list_entries_keeps_the_good_row_and_counts_the_bad_one() {
    let cluster_id = Uuid::new_v4();
    let good_id = Uuid::new_v4();
    let bad_id = Uuid::new_v4();
    let rows = vec![
        good_row(good_id, cluster_id),
        unreadable_row(bad_id, cluster_id),
    ];

    let (out, skipped) = skip_bad_list_entries(rows);
    assert_eq!(skipped, 1, "exactly the one unreadable row must be skipped");
    assert_eq!(out.len(), 1, "the good row must still be present");
    assert_eq!(out[0].sandbox_id.text(), good_id.to_string());
}

#[test]
fn skip_bad_list_entries_reports_nothing_skipped_when_every_row_decodes() {
    let cluster_id = Uuid::new_v4();
    let rows = vec![
        good_row(Uuid::new_v4(), cluster_id),
        good_row(Uuid::new_v4(), cluster_id),
    ];

    let (out, skipped) = skip_bad_list_entries(rows);
    assert_eq!(skipped, 0);
    assert_eq!(out.len(), 2);
}

#[test]
fn decode_list_entry_carries_the_lease_and_execution_columns() {
    let cluster_id = Uuid::new_v4();
    let sandbox_id = Uuid::new_v4();
    let mut row = good_row(sandbox_id, cluster_id);
    let lease_expires_at = now();
    let sandbox_expires_at = now();
    let execution_id = ExecutionId { number: Uuid::new_v4().as_u128() };
    row.lease_expires_at = Some(lease_expires_at);
    row.sandbox_expires_at = Some(sandbox_expires_at);
    row.execution_id = Some(execution_id.text());

    let entry = decode_list_entry(row).expect("a well-formed row must decode");
    assert!(entry
        .lease_expires_at
        .expect("a lease")
        .same_instant(lease_expires_at));
    assert!(entry
        .sandbox_expires_at
        .expect("a deadline")
        .same_instant(sandbox_expires_at));
    assert_eq!(entry.execution_id, Some(execution_id));
    assert_eq!(entry.holder(), "node-a", "Holder() must be origin_node_id");
}

fn reason_of(err: PausedRegistryError) -> String {
    match err {
        PausedRegistryError::InvalidRecord { reason, .. } => reason,
        other => panic!("expected an invalid record, got {other:?}"),
    }
}

#[test]
fn every_identity_column_is_held_to_its_form() {
    let reason = |change: fn(&mut EntryRow)| {
        let mut row = good_row(Uuid::new_v4(), Uuid::new_v4());
        change(&mut row);
        reason_of(parse_identity(&row).expect_err("the row is bad"))
    };
    assert_eq!(reason(|r| r.sandbox_id = "x".to_string()), "sandbox id is not a uuid");
    assert_eq!(reason(|r| r.cluster_id = "x".to_string()), "cluster id is not a uuid");
    assert_eq!(reason(|r| r.state = "gone".to_string()), "unknown state 'gone'");
    assert_eq!(
        reason(|r| r.snapshot_id = Some("x".to_string())),
        "snapshot id is not a uuid"
    );
    assert_eq!(
        reason(|r| r.snapshot_id = Some(String::new())),
        "paused entry carries no snapshot reference"
    );
    assert_eq!(
        reason(|r| r.snapshot_id = None),
        "paused entry carries no snapshot reference"
    );
    assert_eq!(
        reason(|r| r.execution_id = Some("x".to_string())),
        "execution id is not a uuid"
    );
}

#[test]
fn an_entry_needs_its_record_and_an_internal_row_does_not() {
    let mut row = good_row(Uuid::new_v4(), Uuid::new_v4());
    row.metadata = None;
    let id = row.sandbox_id.clone();
    match decode_entry(row).expect_err("no record") {
        PausedRegistryError::InvalidRecord { sandbox_id, reason } => {
            assert_eq!(sandbox_id, id);
            assert_eq!(reason, "metadata is not a sandbox record");
        }
        other => panic!("expected an invalid record, got {other:?}"),
    }
    let mut row = good_row(Uuid::new_v4(), Uuid::new_v4());
    row.metadata = None;
    row.claimed_by_node_id = Some(String::new());
    let decoded = decode_registry_row(row).expect("a row");
    assert_eq!(decoded.claimed_by_node_id, None, "an empty claimant names nobody");
}

fn claim_row(previous_state: &str) -> ClaimRow {
    let row = good_row(Uuid::new_v4(), Uuid::new_v4());
    ClaimRow {
        sandbox_id: row.sandbox_id,
        cluster_id: row.cluster_id,
        state: "resuming".to_string(),
        generation: 2,
        origin_node_id: row.origin_node_id,
        claimed_by_node_id: Some("node-b".to_string()),
        snapshot_id: row.snapshot_id,
        metadata: row.metadata,
        paused_at: row.paused_at,
        updated_at: row.updated_at,
        lease_expires_at: None,
        sandbox_expires_at: None,
        execution_id: Some(Uuid::new_v4().to_string()),
        execution_started_at: Some(now()),
        previous_state: previous_state.to_string(),
    }
}

#[test]
fn a_claim_carries_the_state_before_it() {
    let (entry, previous) = decode_claim(claim_row("local_only")).expect("a claim");
    assert_eq!(previous, PausedRegistryState::LocalOnly);
    assert_eq!(entry.state, PausedRegistryState::Resuming);
    assert_eq!(entry.claimed_by_node_id.as_deref(), Some("node-b"));
    assert_eq!(
        reason_of(decode_claim(claim_row("odd")).expect_err("an unknown state")),
        "unknown previous state 'odd'"
    );
}

#[test]
fn identities_are_read_off_the_numbers_they_spell() {
    let row = good_row(Uuid::new_v4(), Uuid::new_v4());
    let identity = read_identity(
        &row,
        IdentityNumbers {
            sandbox: Some(1),
            cluster: Some(2),
            snapshot: Some(3),
            execution: None,
        },
    )
    .expect("an identity");
    assert_eq!(identity.sandbox_id, SandboxId { number: 1 });
    assert_eq!(identity.cluster_id, 2);
    assert_eq!(identity.snapshot_id, Some(SnapshotId { number: 3 }));
    assert_eq!(identity.execution_id, None);
}

#[test]
fn ids_are_read_back_from_their_text() {
    let id = SandboxId { number: 0x550e8400e29b41d4a716446655440000 };
    assert_eq!(id.text(), "550e8400-e29b-41d4-a716-446655440000");
    assert_eq!(SandboxId::parse_str(&id.text()), Some(id));
    assert_eq!(
        ExecutionId::parse_str("550E8400E29B41D4A716446655440000"),
        Some(ExecutionId { number: id.number })
    );
    assert_eq!(ExecutionId::parse_str("550e8400"), None);
}

#[test]
fn states_are_read_back_from_their_text() {
    for state in [
        PausedRegistryState::Publishing,
        PausedRegistryState::Paused,
        PausedRegistryState::Resuming,
        PausedRegistryState::LocalOnly,
        PausedRegistryState::Running,
    ] {
        assert_eq!(PausedRegistryState::parse(state.as_str()), Some(state));
    }
    assert_eq!(PausedRegistryState::parse("Paused"), None);
}

#[test]
fn decoded_rows_are_collected_without_their_texts() {
    let requested = vec![SandboxId { number: 1 }, SandboxId { number: 2 }];
    let rows = vec![DecodedRow {
        sandbox_id: Some(SandboxId { number: 2 }),
        entry: None,
    }];
    let (rows, skipped) = collect_decoded(&requested, rows);
    assert_eq!(skipped, 1);
    assert_eq!(rows.covered, vec![SandboxId { number: 1 }]);
    assert_eq!(keep_decoded(vec![Some(1), None, Some(3)]), (vec![1, 3], 1));
}

#[test]
fn a_listing_carries_its_own_clock() {
    let (listing, skipped) = list_all(vec![good_row(Uuid::new_v4(), Uuid::new_v4())], ahead(5));
    assert_eq!(skipped, 0);
    assert_eq!(listing.sandboxes.len(), 1);
    assert!(listing.now.same_instant(ahead(5)));
    assert_eq!(
        list_registry_rows_sql(),
        format!(
            "SELECT {} FROM paused_sandboxes WHERE cluster_id = $1::uuid",
            sql::ENTRY_COLUMNS
        )
    );
}

fn row(state: PausedRegistryState, origin: &str) -> RegistryRow {
    RegistryRow {
        sandbox_id: sid(Uuid::new_v4()),
        cluster_id: Uuid::new_v4().as_u128(),
        state,
        generation: 1,
        origin_node_id: origin.to_string(),
        claimed_by_node_id: None,
        snapshot_id: None,
        paused_at: now(),
        updated_at: now(),
        lease_expires_at: Some(ahead(3600)),
        sandbox_expires_at: None,
        execution_id: None,
        execution_started_at: None,
    }
}

#[test]
fn at_risk_rows_folds_running_and_resuming_into_the_same_total_as_parked() {
    let mut stranded = row(PausedRegistryState::Publishing, "node-a");
    stranded.snapshot_id = None;

    let mut lapsed_running = row(PausedRegistryState::Running, "node-b");
    lapsed_running.lease_expires_at = Some(ago(10));

    let outcome = compute_reconcile(&vec![stranded, lapsed_running], now());
    assert_eq!(outcome.stranded_rows, 1);
    assert_eq!(outcome.live_lease_lapsed, 1);
    assert_eq!(
        outcome.at_risk_rows(),
        2,
        "both a stranded parked row and a lapsed running row must count toward the same total"
    );
}

#[test]
fn reclaimable_now_matches_fix_bs_split_conditions() {
    let mut resuming_lapsed_only = row(PausedRegistryState::Resuming, "node-a");
    resuming_lapsed_only.lease_expires_at = Some(ago(1));
    resuming_lapsed_only.sandbox_expires_at = None;

    let mut running_lapsed_only = row(PausedRegistryState::Running, "node-b");
    running_lapsed_only.lease_expires_at = Some(ago(1));
    running_lapsed_only.sandbox_expires_at = None;

    let outcome = compute_reconcile(&vec![resuming_lapsed_only, running_lapsed_only], now());
    assert_eq!(
        outcome.reclaimable_now, 1,
        "only the resuming row (lease alone) should be reclaimable; the running row still needs a passed deadline"
    );
}

#[test]
fn a_healthy_parked_row_is_not_at_risk() {
    let mut r = row(PausedRegistryState::Publishing, "node-a");
    r.snapshot_id = Some(SnapshotId { number: Uuid::new_v4().as_u128() });

    let outcome = compute_reconcile(&vec![r], now());
    assert_eq!(outcome.at_risk_rows(), 0);
}

#[test]
fn every_risk_is_counted_once() {
    let mut expiring = row(PausedRegistryState::LocalOnly, "a");
    expiring.snapshot_id = Some(SnapshotId { number: 1 });
    expiring.lease_expires_at = Some(ahead(29));
    let mut edge = row(PausedRegistryState::LocalOnly, "a");
    edge.snapshot_id = Some(SnapshotId { number: 1 });
    edge.lease_expires_at = Some(ahead(30));
    let mut overdue = row(PausedRegistryState::Running, "a");
    overdue.sandbox_expires_at = Some(ago(1));
    let mut reclaimable = row(PausedRegistryState::Running, "a");
    reclaimable.lease_expires_at = None;
    reclaimable.updated_at = ago(5);
    reclaimable.sandbox_expires_at = Some(ago(1));
    let paused = row(PausedRegistryState::Paused, "a");

    let rows = vec![expiring, edge, overdue, reclaimable, paused];
    assert_eq!(
        compute_reconcile(&rows, now()),
        ReconcileOutcome {
            stranded_rows: 0,
            parked_lease_expiring: 1,
            live_lease_lapsed: 1,
            live_deadline_passed: 1,
            reclaimable_now: 1,
        }
    );
    let counts = rows_by_state(&rows);
    assert_eq!(
        [
            counts.publishing,
            counts.paused,
            counts.resuming,
            counts.local_only,
            counts.running
        ],
        [0, 1, 0, 2, 2]
    );
    assert_eq!(ReconcileOutcome::default().at_risk_rows(), 0);
    assert_eq!(statement_timeout_sql(), "SET statement_timeout = '25s'");
}

/// How old a roster may be to renew from.
const FRESH_TTL: u64 = 30;

fn roster(node_id: &str, sandbox_ids: &[SandboxId], last_seen: Option<Timestamp>) -> Roster {
    Roster {
        node_id: node_id.to_string(),
        entries: sandbox_ids.iter().map(|id| entry(&id.text())).collect(),
        last_seen,
    }
}

fn entry(sandbox_id: &str) -> RosterEntry {
    RosterEntry {
        sandbox_id: sandbox_id.to_string(),
        execution_id: Uuid::new_v4().to_string(),
        projection_ttl: Span::from_secs(30),
        paused: false,
    }
}

fn candidates(rosters: Vec<Roster>) -> Vec<LeaseHolder> {
    candidates_from_rosters(&rosters, now(), Span::from_secs(FRESH_TTL))
}

#[test]
fn a_fresh_roster_entry_is_a_renewal_candidate() {
    let id = sid(Uuid::new_v4());
    let r = roster("node-a", &[id], Some(now()));

    let candidates = candidates(vec![r]);
    assert_eq!(candidates.len(), 1);
    assert_eq!(candidates[0].sandbox_id, id);
    assert_eq!(candidates[0].node_id, "node-a");
}

#[test]
fn a_stale_roster_is_not_a_renewal_source() {
    let id = sid(Uuid::new_v4());
    let r = roster("node-a", &[id], Some(ago(120)));

    assert!(candidates(vec![r]).is_empty());
}

#[test]
fn a_roster_with_no_last_seen_is_not_a_renewal_source() {
    let id = sid(Uuid::new_v4());
    let r = roster("node-a", &[id], None);

    assert!(candidates(vec![r]).is_empty());
}

#[test]
fn candidates_from_multiple_rosters_cover_every_one_of_them() {
    let id_a = sid(Uuid::new_v4());
    let id_b = sid(Uuid::new_v4());
    let rosters = vec![
        roster("node-a", &[id_a], Some(now())),
        roster("node-b", &[id_b], Some(now())),
    ];

    let candidates = candidates(rosters);
    assert_eq!(candidates.len(), 2);
    assert!(candidates
        .iter()
        .any(|c| c.sandbox_id == id_a && c.node_id == "node-a"));
    assert!(candidates
        .iter()
        .any(|c| c.sandbox_id == id_b && c.node_id == "node-b"));
}

#[test]
fn an_unparseable_sandbox_id_is_skipped_without_dropping_its_siblings() {
    let good = sid(Uuid::new_v4());
    let r = Roster {
        node_id: "node-a".to_string(),
        entries: vec![entry("not-a-uuid"), entry(&good.text())],
        last_seen: Some(now()),
    };

    let candidates = candidates(vec![r]);
    assert_eq!(candidates.len(), 1);
    assert_eq!(candidates[0].sandbox_id, good);
}

#[test]
fn a_roster_is_fresh_up_to_its_time_and_from_the_future() {
    let at = |last_seen| {
        let rosters = vec![ParsedRoster {
            node_id: "n".to_string(),
            sandbox_ids: vec![None, Some(SandboxId { number: 4 })],
            last_seen: Some(last_seen),
        }];
        candidates_from_parsed(&rosters, now(), Span::from_secs(FRESH_TTL)).len()
    };
    assert_eq!(at(ago(30)), 1);
    assert_eq!(at(ago(31)), 0);
    assert_eq!(at(ahead(500)), 1);
}

#[test]
fn renewals_pair_each_sandbox_with_its_column() {
    let holders = vec![
        LeaseHolder { sandbox_id: SandboxId { number: 7 }, node_id: "a".to_string() },
        LeaseHolder { sandbox_id: SandboxId { number: 8 }, node_id: "b".to_string() },
    ];
    let parked = renew_parked_leases(&holders).expect("a renewal");
    assert_eq!(parked.ids, vec![7, 8]);
    assert_eq!(parked.node_ids, vec!["a".to_string(), "b".to_string()]);
    assert_eq!(parked.statement, sql::RENEW_PARKED_LEASE_SQL);
    assert_eq!(parked.operation, "renew_parked_leases");
    let live = renew_live_leases(&holders).expect("a renewal");
    assert_eq!(live.statement, sql::RENEW_LIVE_LEASE_SQL);
    assert_eq!(live.operation, "renew_live_leases");
    assert!(renew_live_leases(&vec![]).is_none());

    let held = vec![HeldSandbox { sandbox_id: SandboxId { number: 9 }, expires_at: None }];
    let renewal = renew_lease(&held).expect("a renewal");
    assert_eq!(renewal.ids, vec![9]);
    assert!(renewal.expires[0].is_none());
    assert!(renew_lease(&vec![]).is_none());
}

/// The ratio limit of a breaker, and its defaults.
#[derive(Clone, Copy)]
struct Breaker {
    max_rows: i64,
    max_ratio: f64,
    min_ratio_rows: i64,
}

impl Breaker {
    fn default() -> Self {
        let rows = DiscardBreaker::default();
        Breaker {
            max_rows: rows.max_rows,
            max_ratio: 0.10,
            min_ratio_rows: rows.min_ratio_rows,
        }
    }

    fn allow(&self, candidates: i64, total: i64) -> Result<(), String> {
        DiscardBreaker {
            max_rows: self.max_rows,
            min_ratio_rows: self.min_ratio_rows,
        }
        .allow(
            candidates,
            total,
            (candidates as f64) / (total as f64) > self.max_ratio,
            &format!("{:.0}", self.max_ratio * 100.0),
        )
    }
}

#[test]
fn zero_candidates_always_allows() {
    assert!(Breaker::default().allow(0, 1000).is_ok());
}

#[test]
fn under_both_thresholds_allows() {
    assert!(Breaker::default().allow(2, 100).is_ok());
}

#[test]
fn over_max_rows_trips_even_with_a_tiny_ratio() {
    let breaker = Breaker {
        max_rows: 10,
        max_ratio: 0.10,
        min_ratio_rows: 3,
    };
    assert!(breaker.allow(11, 100_000).is_err());
}

#[test]
fn over_ratio_trips_even_under_max_rows() {
    let breaker = Breaker {
        max_rows: 1000,
        max_ratio: 0.10,
        min_ratio_rows: 3,
    };
    assert!(breaker.allow(20, 100).is_err());
}

#[test]
fn min_ratio_rows_protects_a_small_cluster() {
    let breaker = Breaker {
        max_rows: 1000,
        max_ratio: 0.10,
        min_ratio_rows: 3,
    };
    assert!(breaker.allow(2, 8).is_ok());
}

#[test]
fn a_tripped_breaker_says_which_limits_it_held() {
    assert_eq!(
        Breaker::default().allow(11, 20).expect_err("over the limit"),
        "refusing to reclaim: this pass would discard more rows than anything here can \
         explain, and a discarded row has no snapshot to come back from (11 of 20 rows exceeds \
         the limit of 10, or 10% above 3 rows)"
    );
    let unset = DiscardBreaker { max_rows: 0, min_ratio_rows: -1 };
    assert!(unset.allow(10, 0, true, "10").is_ok(), "no rows, no ratio");
    assert!(unset.allow(11, 0, true, "10").is_err(), "the default row limit holds");
    match reclaim_verdict(&unset, 4, 5, true, "10").expect_err("over the ratio") {
        PausedRegistryError::Backend { operation, reason } => {
            assert_eq!(operation, "reclaim_expired_holdings");
            assert!(reason.contains("(4 of 5 rows"));
        }
        other => panic!("expected a backend error, got {other:?}"),
    }
}

#[test]
fn releases_of_both_kinds_are_summed() {
    let outcome = reclaim_expired_holdings(2, 3, 1);
    assert_eq!(outcome, ReleasedHoldings { released: 5, discarded: 1 });
    assert!(!outcome.is_empty());
    assert!(reclaim_expired_holdings(0, 0, 0).is_empty());
}

#[test]
fn checking_is_new_epoch_repeatedly_without_recording_never_marks_it_seen() {
    let mut last_pid: i32 = 0;
    let pid = 4242;

    assert!(is_new_epoch(&last_pid, pid), "unseen pid must read as new");
    assert!(
        is_new_epoch(&last_pid, pid),
        "a pid that was only checked, never recorded, must still read as new on the next tick \
         -- this is what lets a failed enter() retry instead of being skipped forever"
    );
    assert!(
        is_new_epoch(&last_pid, pid),
        "and again -- checking alone must never have a side effect"
    );

    record_epoch_entered(&mut last_pid, pid);
    assert!(
        !is_new_epoch(&last_pid, pid),
        "once actually recorded, the same pid must read as already-seen"
    );
}

#[test]
fn a_failed_grace_entry_is_retried_on_the_next_tick() {
    let mut last_pid: i32 = 0;
    assert!(tick_enters_grace(&last_pid, Some(7)));
    tick_entered_grace(&mut last_pid, 7, false);
    assert!(tick_enters_grace(&last_pid, Some(7)));
    tick_entered_grace(&mut last_pid, 7, true);
    assert!(!tick_enters_grace(&last_pid, Some(7)));
    assert!(!tick_enters_grace(&last_pid, None));
    assert!(tick_enters_grace(&last_pid, Some(8)));
}

#[test]
fn a_cluster_without_a_grace_row_is_not_serving() {
    assert!(!is_serving(None));
    assert!(!is_serving(Some(false)));
    assert!(is_serving(Some(true)));
    assert!(durable_only(None));
    assert!(!durable_only(Some(true)));
    assert!(!reclaims_now(Some(false)));
    assert!(reclaims_now(Some(true)));
    assert_eq!(WritePhase::from_row(None).gauge(), 0);
    assert_eq!(WritePhase::from_row(Some(false)).gauge(), 1);
    assert_eq!(WritePhase::from_row(Some(true)).gauge(), 2);
}

#[test]
fn entering_grace_infers_the_downtime_from_the_last_update() {
    let cluster = 3u128;
    let mut stale = row(PausedRegistryState::Running, "a");
    stale.cluster_id = cluster;
    stale.updated_at = ago(3600);
    let mut older = row(PausedRegistryState::Running, "a");
    older.cluster_id = cluster;
    older.updated_at = ago(9000);
    let foreign = row(PausedRegistryState::Running, "a");

    let seen = enter(&vec![older, stale, foreign], cluster, Span::from_secs(90), now());
    assert_eq!(seen.downtime.secs, 3600);
    assert_eq!(seen.extended, 2);
    assert_eq!(grace_row_at(Some(seen.grace_until), ahead(89)), Some(false));
    assert_eq!(grace_row_at(Some(seen.grace_until), ahead(90)), Some(true));
    assert_eq!(grace_row_at(None, now()), None);

    let empty = enter(&vec![], cluster, Span::from_secs(90), now());
    assert_eq!(empty.downtime.secs, 90, "without rows the grace time stands in");
    assert_eq!(empty.extended, 0);
}
