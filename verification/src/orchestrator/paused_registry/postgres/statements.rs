//! What each statement of [`sql`](super::sql) does to one row.
//!
//! PostgreSQL runs the statements under a row lock, so a row goes through them one at a time.
//! The functions here make the same step on a row in memory, and the laws at the end hold of
//! every row that only these steps have touched.

use super::super::types::{BeganPause, PausedRegistryState, SnapshotId};
use super::row::RegistryRow;
use crate::ids::{ExecutionId, SandboxId};
use crate::text::same_text;
use crate::time::{is_instant, Span, Timestamp};
use vstd::prelude::*;
use vstd::string::*;

verus! {

/// Mathematical reading of a [`RegistryRow`]; times are in nanoseconds.
pub struct RowModel {
    pub sandbox_id: SandboxId,
    pub cluster_id: u128,
    pub state: PausedRegistryState,
    pub generation: int,
    pub origin: Seq<char>,
    pub claimant: Option<Seq<char>>,
    pub snapshot: Option<SnapshotId>,
    pub paused_at: int,
    pub updated_at: int,
    pub lease: Option<int>,
    pub deadline: Option<int>,
    pub execution: Option<ExecutionId>,
    pub started: Option<int>,
}

/// An optional instant in nanoseconds.
pub open spec fn instant_of(t: Option<Timestamp>) -> Option<int> {
    match t {
        Some(at) => Some(at@),
        None => None,
    }
}

/// An optional text.
pub open spec fn text_of(t: Option<String>) -> Option<Seq<char>> {
    match t {
        Some(text) => Some(text@),
        None => None,
    }
}

impl View for RegistryRow {
    type V = RowModel;

    open spec fn view(&self) -> RowModel {
        RowModel {
            sandbox_id: self.sandbox_id,
            cluster_id: self.cluster_id,
            state: self.state,
            generation: self.generation as int,
            origin: self.origin_node_id@,
            claimant: text_of(self.claimed_by_node_id),
            snapshot: self.snapshot_id,
            paused_at: self.paused_at@,
            updated_at: self.updated_at@,
            lease: instant_of(self.lease_expires_at),
            deadline: instant_of(self.sandbox_expires_at),
            execution: self.execution_id,
            started: instant_of(self.execution_started_at),
        }
    }
}

/// A statement with its arguments, as it meets one row. `now` is the transaction's clock, and
/// `until` the end of a lease granted at it.
pub enum Statement {
    BeginPause {
        sandbox_id: SandboxId,
        cluster_id: u128,
        origin: Seq<char>,
        execution: ExecutionId,
        now: int,
        until: int,
    },
    CompletePause {
        cluster_id: u128,
        generation: int,
        snapshot: SnapshotId,
        now: int,
        until: int,
    },
    MarkLocalOnly { cluster_id: u128, generation: int, now: int, until: int },
    Claim {
        durable_only: bool,
        cluster_id: u128,
        node: Seq<char>,
        execution: ExecutionId,
        now: int,
        until: int,
    },
    ReleaseClaim { cluster_id: u128, generation: int, now: int, until: int },
    MarkRunning {
        cluster_id: u128,
        claimant: Seq<char>,
        holder: Seq<char>,
        execution: ExecutionId,
        expires: Option<int>,
        now: int,
        until: int,
    },
    RenewDeadline { cluster_id: u128, execution: ExecutionId, expires: Option<int>, now: int },
    RenewHeld { cluster_id: u128, node: Seq<char>, expires: Option<int>, now: int, until: int },
    RenewParked { cluster_id: u128, node: Seq<char>, now: int, until: int },
    RenewLive { cluster_id: u128, node: Seq<char>, now: int, until: int },
    ReclaimRunning { cluster_id: u128, now: int },
    ReclaimResuming { cluster_id: u128, now: int },
    ReclaimDiscarded { cluster_id: u128, now: int },
    ReleaseHoldings { cluster_id: u128, node: Seq<char>, now: int },
    DiscardHoldings { cluster_id: u128, node: Seq<char> },
    Remove { cluster_id: u128, generation: int },
    ExtendLease { cluster_id: u128, by: int },
}

/// When the lease of a row ends: at its expiry, or at the last update where it has none.
pub open spec fn lease_ends(r: RowModel) -> int {
    match r.lease {
        Some(at) => at,
        None => r.updated_at,
    }
}

/// Whether the lease of a row has lapsed.
pub open spec fn lease_lapsed(r: RowModel, now: int) -> bool {
    lease_ends(r) < now
}

/// Whether a row has a deadline and it has passed.
pub open spec fn deadline_passed(r: RowModel, now: int) -> bool {
    r.deadline matches Some(at) && at < now
}

/// Whether the pause of a row is on its origin node.
pub open spec fn is_parked(s: PausedRegistryState) -> bool {
    s is Publishing || s is LocalOnly
}

/// Whether a row is running or being started.
pub open spec fn is_live(s: PausedRegistryState) -> bool {
    s is Running || s is Resuming
}

/// Whether `node` holds a live row: as its origin where it runs, as its claimant where it is
/// being started.
pub open spec fn is_live_holding_of(r: RowModel, node: Seq<char>) -> bool {
    (r.state is Running && r.origin == node) || (r.state is Resuming && r.claimant == Some(node))
}

/// Which rows a claim may take: durable ones that are paused, and past restart grace also parked
/// ones whose lease has lapsed.
pub open spec fn is_claimable(r: RowModel, durable_only: bool, now: int) -> bool {
    r.snapshot is Some && (r.state is Paused || (!durable_only && is_parked(r.state)
        && lease_lapsed(r, now)))
}

/// Whether a statement touches a row.
pub open spec fn touches(s: Statement, r: RowModel) -> bool {
    match s {
        Statement::BeginPause { cluster_id, execution, .. } => r.cluster_id == cluster_id
            && r.execution == Some(execution),
        Statement::CompletePause { cluster_id, generation, .. } => r.cluster_id == cluster_id
            && r.generation == generation && r.state is Publishing,
        Statement::MarkLocalOnly { cluster_id, generation, .. } => r.cluster_id == cluster_id
            && r.generation == generation && r.state is Publishing,
        Statement::Claim { durable_only, cluster_id, now, .. } => r.cluster_id == cluster_id
            && is_claimable(r, durable_only, now),
        Statement::ReleaseClaim { cluster_id, generation, .. } => r.cluster_id == cluster_id
            && r.generation == generation && r.state is Resuming,
        Statement::MarkRunning { cluster_id, claimant, holder, execution, .. } => r.cluster_id
            == cluster_id && {
            ||| r.state is Resuming && r.claimant == Some(claimant) && r.execution == Some(
                execution,
            )
            ||| (r.state is Paused || is_parked(r.state)) && r.origin == claimant
                && r.claimant is None
            ||| r.state is Running && r.origin == holder && r.execution == Some(execution)
        },
        Statement::RenewDeadline { cluster_id, execution, .. } => r.cluster_id == cluster_id
            && r.state is Running && r.execution == Some(execution),
        Statement::RenewHeld { cluster_id, node, .. } => r.cluster_id == cluster_id && {
            ||| (r.state is Running || is_parked(r.state)) && r.origin == node
            ||| r.state is Resuming && r.claimant == Some(node)
        },
        Statement::RenewParked { cluster_id, node, .. } => r.cluster_id == cluster_id && is_parked(
            r.state,
        ) && r.origin == node,
        Statement::RenewLive { cluster_id, node, .. } => r.cluster_id == cluster_id
            && r.state is Running && r.origin == node,
        Statement::ReclaimRunning { cluster_id, now } => r.cluster_id == cluster_id
            && r.snapshot is Some && r.state is Running && lease_lapsed(r, now)
            && deadline_passed(r, now),
        Statement::ReclaimResuming { cluster_id, now } => r.cluster_id == cluster_id
            && r.snapshot is Some && r.state is Resuming && lease_lapsed(r, now),
        Statement::ReclaimDiscarded { cluster_id, now } => r.cluster_id == cluster_id
            && r.snapshot is None && is_live(r.state) && lease_lapsed(r, now)
            && deadline_passed(r, now),
        Statement::ReleaseHoldings { cluster_id, node, .. } => r.cluster_id == cluster_id
            && r.snapshot is Some && is_live_holding_of(r, node),
        Statement::DiscardHoldings { cluster_id, node } => r.cluster_id == cluster_id
            && r.snapshot is None && is_live_holding_of(r, node),
        Statement::Remove { cluster_id, generation } => r.cluster_id == cluster_id
            && r.generation == generation,
        Statement::ExtendLease { cluster_id, .. } => r.cluster_id == cluster_id,
    }
}

/// A live row given back to its snapshot.
pub open spec fn given_back(r: RowModel, now: int) -> RowModel {
    RowModel {
        state: PausedRegistryState::Paused,
        claimant: None,
        execution: None,
        started: None,
        generation: r.generation + 1,
        updated_at: now,
        lease: Some(now),
        ..r
    }
}

/// What a row becomes that the statement touches; nothing where the statement deletes it.
pub open spec fn outcome(s: Statement, r: RowModel) -> Option<RowModel> {
    match s {
        Statement::BeginPause { origin, now, until, .. } => Some(
            RowModel {
                state: PausedRegistryState::Publishing,
                generation: r.generation + 1,
                origin,
                claimant: None,
                paused_at: now,
                updated_at: now,
                lease: Some(until),
                ..r
            },
        ),
        Statement::CompletePause { snapshot, now, until, .. } => Some(
            RowModel {
                state: PausedRegistryState::Paused,
                snapshot: Some(snapshot),
                updated_at: now,
                lease: Some(until),
                execution: None,
                started: None,
                ..r
            },
        ),
        Statement::MarkLocalOnly { now, until, .. } => Some(
            RowModel {
                state: PausedRegistryState::LocalOnly,
                updated_at: now,
                lease: Some(until),
                execution: None,
                started: None,
                ..r
            },
        ),
        Statement::Claim { node, execution, now, until, .. } => Some(
            RowModel {
                state: PausedRegistryState::Resuming,
                claimant: Some(node),
                execution: Some(execution),
                started: Some(now),
                generation: r.generation + 1,
                updated_at: now,
                lease: Some(until),
                ..r
            },
        ),
        Statement::ReleaseClaim { now, until, .. } => Some(
            RowModel {
                state: PausedRegistryState::Paused,
                claimant: None,
                updated_at: now,
                lease: Some(until),
                execution: None,
                started: None,
                ..r
            },
        ),
        Statement::MarkRunning { holder, execution, expires, now, until, .. } => Some(
            RowModel {
                state: PausedRegistryState::Running,
                origin: holder,
                claimant: None,
                execution: Some(execution),
                started: if r.state is Running && r.execution == Some(execution) {
                    r.started
                } else {
                    Some(now)
                },
                generation: r.generation + 1,
                updated_at: now,
                lease: Some(until),
                deadline: expires,
                ..r
            },
        ),
        Statement::RenewDeadline { expires, now, .. } => Some(
            RowModel { deadline: expires, updated_at: now, ..r },
        ),
        Statement::RenewHeld { expires, now, until, .. } => Some(
            RowModel { lease: Some(until), deadline: expires, updated_at: now, ..r },
        ),
        Statement::RenewParked { now, until, .. } => Some(
            RowModel { lease: Some(until), updated_at: now, ..r },
        ),
        Statement::RenewLive { now, until, .. } => Some(
            RowModel { lease: Some(until), updated_at: now, ..r },
        ),
        Statement::ReclaimRunning { now, .. } => Some(given_back(r, now)),
        Statement::ReclaimResuming { now, .. } => Some(given_back(r, now)),
        Statement::ReclaimDiscarded { .. } => None,
        Statement::ReleaseHoldings { now, .. } => Some(given_back(r, now)),
        Statement::DiscardHoldings { .. } => None,
        Statement::Remove { .. } => None,
        Statement::ExtendLease { by, .. } => Some(
            RowModel { lease: Some(lease_ends(r) + by), ..r },
        ),
    }
}

/// The row that a statement creates where there was none.
pub open spec fn created(s: Statement) -> Option<RowModel> {
    match s {
        Statement::BeginPause { sandbox_id, cluster_id, origin, execution, now, until } => Some(
            RowModel {
                sandbox_id,
                cluster_id,
                state: PausedRegistryState::Publishing,
                generation: 1,
                origin,
                claimant: None,
                snapshot: None,
                paused_at: now,
                updated_at: now,
                lease: Some(until),
                deadline: None,
                execution: Some(execution),
                started: Some(now),
            },
        ),
        _ => None,
    }
}

/// What the slot of one sandbox holds after a statement met it.
pub open spec fn after(s: Statement, slot: Option<RowModel>) -> Option<RowModel> {
    match slot {
        Some(r) => if touches(s, r) {
            outcome(s, r)
        } else {
            slot
        },
        None => created(s),
    }
}

/// Whether an optional text is there and is `node`.
fn names(column: &Option<String>, node: &str) -> (r: bool)
    ensures
        r == (text_of(*column) == Some(node@)),
{
    match column {
        Some(text) => same_text(text.as_str(), node),
        None => false,
    }
}

fn parked(s: PausedRegistryState) -> (r: bool)
    ensures
        r == is_parked(s),
{
    s == PausedRegistryState::Publishing || s == PausedRegistryState::LocalOnly
}

fn deadline_is_past(row: &RegistryRow, now: Timestamp) -> (r: bool)
    ensures
        r == deadline_passed(row@, now@),
{
    match row.sandbox_expires_at {
        Some(at) => at.before(now),
        None => false,
    }
}

fn holds_live(row: &RegistryRow, node: &str) -> (r: bool)
    ensures
        r == is_live_holding_of(row@, node@),
{
    (row.state == PausedRegistryState::Running && same_text(row.origin_node_id.as_str(), node)) || (
    row.state == PausedRegistryState::Resuming && names(&row.claimed_by_node_id, node))
}

/// Makes a live row its snapshot's again.
fn give_back(row: &mut RegistryRow, now: Timestamp)
    requires
        old(row).generation < i64::MAX,
    ensures
        final(row)@ == given_back(old(row)@, now@),
        *final(row) == (RegistryRow {
            state: PausedRegistryState::Paused,
            claimed_by_node_id: None,
            execution_id: None,
            execution_started_at: None,
            generation: (old(row).generation + 1) as i64,
            updated_at: now,
            lease_expires_at: Some(now),
            ..*old(row)
        }),
{
    row.state = PausedRegistryState::Paused;
    row.claimed_by_node_id = None;
    row.execution_id = None;
    row.execution_started_at = None;
    row.generation = row.generation + 1;
    row.updated_at = now;
    row.lease_expires_at = Some(now);
}

/// A pause to begin.
#[derive(Debug)]
pub struct PauseRequest {
    pub sandbox_id: SandboxId,
    pub cluster_id: u128,
    pub origin_node_id: String,
    pub execution_id: ExecutionId,
}

/// The statement that begins a pause.
pub open spec fn begin_pause_statement(request: PauseRequest, ttl: Span, now: Timestamp) -> Statement {
    Statement::BeginPause {
        sandbox_id: request.sandbox_id,
        cluster_id: request.cluster_id,
        origin: request.origin_node_id@,
        execution: request.execution_id,
        now: now@,
        until: now@ + ttl@,
    }
}

/// The slot's row, where there is one.
pub open spec fn slot_model(slot: Option<RegistryRow>) -> Option<RowModel> {
    match slot {
        Some(row) => Some(row@),
        None => None,
    }
}

/// `BEGIN_PAUSE_SQL`: begins or retries a pause of the matching cluster and execution, and hands
/// back the row's new generation and the snapshot it had.
pub fn begin_pause(
    slot: &mut Option<RegistryRow>,
    request: &PauseRequest,
    ttl: Span,
    now: Timestamp,
) -> (r: Option<BeganPause>)
    requires
        is_instant(now@ + ttl@),
        slot_model(*old(slot)) matches Some(r) ==> r.generation < i64::MAX,
    ensures
        slot_model(*final(slot)) == after(
            begin_pause_statement(*request, ttl, now),
            slot_model(*old(slot)),
        ),
        match *old(slot) {
            Some(row) => if touches(begin_pause_statement(*request, ttl, now), row@) {
                r == Some(
                    BeganPause {
                        generation: (row.generation + 1) as i64,
                        previous_snapshot_id: row.snapshot_id,
                    },
                )
            } else {
                r is None
            },
            None => r == Some(BeganPause { generation: 1, previous_snapshot_id: None }),
        },
        match *old(slot) {
            None => *final(slot) matches Some(row) && row.sandbox_id == request.sandbox_id
                && row.cluster_id == request.cluster_id && row.state is Publishing
                && row.generation == 1 && row.origin_node_id@ == request.origin_node_id@
                && row.claimed_by_node_id is None && row.snapshot_id is None && row.paused_at == now
                && row.updated_at == now && (row.lease_expires_at matches Some(at) && at@ == now@
                + ttl@) && row.sandbox_expires_at is None && row.execution_id == Some(
                request.execution_id,
            ) && row.execution_started_at == Some(now),
            Some(was) => if was.cluster_id == request.cluster_id && was.execution_id == Some(
                request.execution_id,
            ) {
                *final(slot) matches Some(row) && row == (RegistryRow {
                    state: PausedRegistryState::Publishing,
                    generation: (was.generation + 1) as i64,
                    origin_node_id: row.origin_node_id,
                    claimed_by_node_id: None,
                    paused_at: now,
                    updated_at: now,
                    lease_expires_at: row.lease_expires_at,
                    ..was
                }) && row.origin_node_id@ == request.origin_node_id@ && (
                row.lease_expires_at matches Some(at) && at@ == now@ + ttl@)
            } else {
                *final(slot) == *old(slot) && r is None
            },
        },
{
    let until = now.plus(ttl);
    let mut current: Option<RegistryRow> = None;
    core::mem::swap(&mut current, slot);
    match current {
        None => {
            *slot =
            Some(
                RegistryRow {
                    sandbox_id: request.sandbox_id,
                    cluster_id: request.cluster_id,
                    state: PausedRegistryState::Publishing,
                    generation: 1,
                    origin_node_id: request.origin_node_id.clone(),
                    claimed_by_node_id: None,
                    snapshot_id: None,
                    paused_at: now,
                    updated_at: now,
                    lease_expires_at: Some(until),
                    sandbox_expires_at: None,
                    execution_id: Some(request.execution_id),
                    execution_started_at: Some(now),
                },
            );
            Some(BeganPause { generation: 1, previous_snapshot_id: None })
        },
        Some(row) => {
            let same: bool = row.cluster_id == request.cluster_id && match row.execution_id {
                Some(execution) => execution == request.execution_id,
                None => false,
            };
            if same {
                let generation: i64 = row.generation + 1;
                let previous_snapshot_id = row.snapshot_id;
                *slot =
                Some(
                    RegistryRow {
                        sandbox_id: row.sandbox_id,
                        cluster_id: row.cluster_id,
                        state: PausedRegistryState::Publishing,
                        generation,
                        origin_node_id: request.origin_node_id.clone(),
                        claimed_by_node_id: None,
                        snapshot_id: row.snapshot_id,
                        paused_at: now,
                        updated_at: now,
                        lease_expires_at: Some(until),
                        sandbox_expires_at: row.sandbox_expires_at,
                        execution_id: row.execution_id,
                        execution_started_at: row.execution_started_at,
                    },
                );
                Some(BeganPause { generation, previous_snapshot_id })
            } else {
                *slot = Some(row);
                None
            }
        },
    }
}

/// `COMPLETE_PAUSE_SQL`: completes a publishing pause and clears its execution identity.
pub fn complete_pause(
    row: &mut RegistryRow,
    cluster_id: u128,
    generation: i64,
    snapshot: SnapshotId,
    ttl: Span,
    now: Timestamp,
) -> (r: bool)
    requires
        is_instant(now@ + ttl@),
    ensures
        r == touches(
            Statement::CompletePause {
                cluster_id,
                generation: generation as int,
                snapshot,
                now: now@,
                until: now@ + ttl@,
            },
            old(row)@,
        ),
        Some(final(row)@) == after(
            Statement::CompletePause {
                cluster_id,
                generation: generation as int,
                snapshot,
                now: now@,
                until: now@ + ttl@,
            },
            Some(old(row)@),
        ),
        r == (old(row).cluster_id == cluster_id && old(row).generation == generation && old(
            row,
        ).state is Publishing),
        !r ==> *final(row) == *old(row),
        r ==> *final(row) == (RegistryRow {
            state: PausedRegistryState::Paused,
            snapshot_id: Some(snapshot),
            updated_at: now,
            lease_expires_at: final(row).lease_expires_at,
            execution_id: None,
            execution_started_at: None,
            ..*old(row)
        }) && (final(row).lease_expires_at matches Some(at) && at@ == now@ + ttl@),
{
    if row.cluster_id != cluster_id || row.generation != generation || row.state
        != PausedRegistryState::Publishing {
        return false;
    }
    row.state = PausedRegistryState::Paused;
    row.snapshot_id = Some(snapshot);
    row.updated_at = now;
    row.lease_expires_at = Some(now.plus(ttl));
    row.execution_id = None;
    row.execution_started_at = None;
    true
}

/// `MARK_LOCAL_ONLY_SQL`: marks a publishing pause local-only.
pub fn mark_local_only(
    row: &mut RegistryRow,
    cluster_id: u128,
    generation: i64,
    ttl: Span,
    now: Timestamp,
) -> (r: bool)
    requires
        is_instant(now@ + ttl@),
    ensures
        r == touches(
            Statement::MarkLocalOnly {
                cluster_id,
                generation: generation as int,
                now: now@,
                until: now@ + ttl@,
            },
            old(row)@,
        ),
        Some(final(row)@) == after(
            Statement::MarkLocalOnly {
                cluster_id,
                generation: generation as int,
                now: now@,
                until: now@ + ttl@,
            },
            Some(old(row)@),
        ),
        r == (old(row).cluster_id == cluster_id && old(row).generation == generation && old(
            row,
        ).state is Publishing),
        !r ==> *final(row) == *old(row),
        r ==> *final(row) == (RegistryRow {
            state: PausedRegistryState::LocalOnly,
            updated_at: now,
            lease_expires_at: final(row).lease_expires_at,
            execution_id: None,
            execution_started_at: None,
            ..*old(row)
        }) && (final(row).lease_expires_at matches Some(at) && at@ == now@ + ttl@),
{
    if row.cluster_id != cluster_id || row.generation != generation || row.state
        != PausedRegistryState::Publishing {
        return false;
    }
    row.state = PausedRegistryState::LocalOnly;
    row.updated_at = now;
    row.lease_expires_at = Some(now.plus(ttl));
    row.execution_id = None;
    row.execution_started_at = None;
    true
}

/// A claim of one sandbox for a node and a new execution.
#[derive(Debug, Clone, Copy)]
pub struct ClaimRequest<'a> {
    /// Whether restart grace restricts takeover to durable paused rows.
    pub durable_only: bool,
    pub cluster_id: u128,
    pub node_id: &'a str,
    pub execution_id: ExecutionId,
}

/// The statement that claims a sandbox.
pub open spec fn claim_statement(request: ClaimRequest, ttl: Span, now: Timestamp) -> Statement {
    Statement::Claim {
        durable_only: request.durable_only,
        cluster_id: request.cluster_id,
        node: request.node_id@,
        execution: request.execution_id,
        now: now@,
        until: now@ + ttl@,
    }
}

/// The claim statements: takes durable paused rows, plus expired parked rows after restart grace,
/// and hands back the state that preceded.
pub fn claim_for_resume(
    row: &mut RegistryRow,
    request: ClaimRequest,
    ttl: Span,
    now: Timestamp,
) -> (r: Option<PausedRegistryState>)
    requires
        is_instant(now@ + ttl@),
        old(row).generation < i64::MAX,
    ensures
        r == if touches(claim_statement(request, ttl, now), old(row)@) {
            Some(old(row).state)
        } else {
            None
        },
        Some(final(row)@) == after(claim_statement(request, ttl, now), Some(old(row)@)),
        r is Some <==> old(row).cluster_id == request.cluster_id && old(row).snapshot_id is Some
            && match old(row).state {
            PausedRegistryState::Paused => true,
            PausedRegistryState::Publishing | PausedRegistryState::LocalOnly => {
                !request.durable_only && match old(row).lease_expires_at {
                    Some(at) => at@ < now@,
                    None => old(row).updated_at@ < now@,
                }
            },
            PausedRegistryState::Running | PausedRegistryState::Resuming => false,
        },
        r matches Some(previous) ==> previous == old(row).state,
        r is None ==> *final(row) == *old(row),
        r is Some ==> *final(row) == (RegistryRow {
            state: PausedRegistryState::Resuming,
            claimed_by_node_id: final(row).claimed_by_node_id,
            execution_id: Some(request.execution_id),
            execution_started_at: Some(now),
            generation: (old(row).generation + 1) as i64,
            updated_at: now,
            lease_expires_at: final(row).lease_expires_at,
            ..*old(row)
        }) && (final(row).claimed_by_node_id matches Some(node) && node@ == request.node_id@) && (
        final(row).lease_expires_at matches Some(at) && at@ == now@ + ttl@),
{
    let previous = row.state;
    let lapsed: bool = row.lease_expired(now);
    let free: bool = previous == PausedRegistryState::Paused || (!request.durable_only && parked(
        previous,
    ) && lapsed);
    if row.cluster_id != request.cluster_id || row.snapshot_id.is_none() || !free {
        return None;
    }
    row.state = PausedRegistryState::Resuming;
    row.claimed_by_node_id = Some(request.node_id.to_owned());
    row.execution_id = Some(request.execution_id);
    row.execution_started_at = Some(now);
    row.generation = row.generation + 1;
    row.updated_at = now;
    row.lease_expires_at = Some(now.plus(ttl));
    Some(previous)
}

/// `RELEASE_CLAIM_SQL`: releases a resuming claim.
pub fn release_claim(
    row: &mut RegistryRow,
    cluster_id: u128,
    generation: i64,
    ttl: Span,
    now: Timestamp,
) -> (r: bool)
    requires
        is_instant(now@ + ttl@),
    ensures
        r == touches(
            Statement::ReleaseClaim {
                cluster_id,
                generation: generation as int,
                now: now@,
                until: now@ + ttl@,
            },
            old(row)@,
        ),
        Some(final(row)@) == after(
            Statement::ReleaseClaim {
                cluster_id,
                generation: generation as int,
                now: now@,
                until: now@ + ttl@,
            },
            Some(old(row)@),
        ),
        r == (old(row).cluster_id == cluster_id && old(row).generation == generation && old(
            row,
        ).state is Resuming),
        !r ==> *final(row) == *old(row),
        r ==> *final(row) == (RegistryRow {
            state: PausedRegistryState::Paused,
            claimed_by_node_id: None,
            updated_at: now,
            lease_expires_at: final(row).lease_expires_at,
            execution_id: None,
            execution_started_at: None,
            ..*old(row)
        }) && (final(row).lease_expires_at matches Some(at) && at@ == now@ + ttl@),
{
    if row.cluster_id != cluster_id || row.generation != generation || row.state
        != PausedRegistryState::Resuming {
        return false;
    }
    row.state = PausedRegistryState::Paused;
    row.claimed_by_node_id = None;
    row.updated_at = now;
    row.lease_expires_at = Some(now.plus(ttl));
    row.execution_id = None;
    row.execution_started_at = None;
    true
}

/// A sandbox that says it runs: `claimant` asked for it, `holder` runs it.
#[derive(Debug, Clone, Copy)]
pub struct RunningReport<'a> {
    pub cluster_id: u128,
    pub claimant: &'a str,
    pub holder: &'a str,
    pub execution_id: ExecutionId,
    pub expires_at: Option<Timestamp>,
}

/// The statement that marks a sandbox running.
pub open spec fn running_statement(report: RunningReport, ttl: Span, now: Timestamp) -> Statement {
    Statement::MarkRunning {
        cluster_id: report.cluster_id,
        claimant: report.claimant@,
        holder: report.holder@,
        execution: report.execution_id,
        expires: instant_of(report.expires_at),
        now: now@,
        until: now@ + ttl@,
    }
}

/// `MARK_RUNNING_SQL`: marks a sandbox running, where the report finishes the row's own claim,
/// wakes a row parked on its own node, or repeats what the row already says.
pub fn mark_running(
    row: &mut RegistryRow,
    report: RunningReport,
    ttl: Span,
    now: Timestamp,
) -> (r: bool)
    requires
        is_instant(now@ + ttl@),
        old(row).generation < i64::MAX,
    ensures
        r == touches(running_statement(report, ttl, now), old(row)@),
        Some(final(row)@) == after(running_statement(report, ttl, now), Some(old(row)@)),
        r <==> old(row).cluster_id == report.cluster_id && match old(row).state {
            PausedRegistryState::Resuming => {
                (old(row).claimed_by_node_id matches Some(node) && node@ == report.claimant@)
                    && old(row).execution_id == Some(report.execution_id)
            },
            PausedRegistryState::Running => old(row).origin_node_id@ == report.holder@ && old(
                row,
            ).execution_id == Some(report.execution_id),
            PausedRegistryState::Paused
            | PausedRegistryState::Publishing
            | PausedRegistryState::LocalOnly => old(row).origin_node_id@ == report.claimant@ && old(
                row,
            ).claimed_by_node_id is None,
        },
        !r ==> *final(row) == *old(row),
        r ==> *final(row) == (RegistryRow {
            state: PausedRegistryState::Running,
            origin_node_id: final(row).origin_node_id,
            claimed_by_node_id: None,
            execution_id: Some(report.execution_id),
            execution_started_at: if old(row).state is Running {
                old(row).execution_started_at
            } else {
                Some(now)
            },
            generation: (old(row).generation + 1) as i64,
            updated_at: now,
            lease_expires_at: final(row).lease_expires_at,
            sandbox_expires_at: report.expires_at,
            ..*old(row)
        }) && final(row).origin_node_id@ == report.holder@ && (final(row).lease_expires_at matches Some(at) && at@ == now@ + ttl@),
{
    let same_execution: bool = match row.execution_id {
        Some(execution) => execution == report.execution_id,
        None => false,
    };
    let finishes: bool = row.state == PausedRegistryState::Resuming && names(
        &row.claimed_by_node_id,
        report.claimant,
    ) && same_execution;
    let wakes: bool = (row.state == PausedRegistryState::Paused || parked(row.state)) && same_text(
        row.origin_node_id.as_str(),
        report.claimant,
    ) && row.claimed_by_node_id.is_none();
    let repeats: bool = row.state == PausedRegistryState::Running && same_text(
        row.origin_node_id.as_str(),
        report.holder,
    ) && same_execution;
    if row.cluster_id != report.cluster_id || !(finishes || wakes || repeats) {
        return false;
    }
    if !repeats {
        row.execution_started_at = Some(now);
    }
    row.state = PausedRegistryState::Running;
    row.origin_node_id = report.holder.to_owned();
    row.claimed_by_node_id = None;
    row.execution_id = Some(report.execution_id);
    row.generation = row.generation + 1;
    row.updated_at = now;
    row.lease_expires_at = Some(now.plus(ttl));
    row.sandbox_expires_at = report.expires_at;
    true
}

/// `RENEW_SANDBOX_DEADLINE_SQL`: renews a running sandbox deadline under its execution identity.
pub fn renew_sandbox_deadline(
    row: &mut RegistryRow,
    cluster_id: u128,
    execution_id: ExecutionId,
    expires_at: Option<Timestamp>,
    now: Timestamp,
) -> (r: bool)
    ensures
        r == touches(
            Statement::RenewDeadline {
                cluster_id,
                execution: execution_id,
                expires: instant_of(expires_at),
                now: now@,
            },
            old(row)@,
        ),
        Some(final(row)@) == after(
            Statement::RenewDeadline {
                cluster_id,
                execution: execution_id,
                expires: instant_of(expires_at),
                now: now@,
            },
            Some(old(row)@),
        ),
        r == (old(row).cluster_id == cluster_id && old(row).state is Running && old(
            row,
        ).execution_id == Some(execution_id)),
        *final(row) == if r {
            RegistryRow { sandbox_expires_at: expires_at, updated_at: now, ..*old(row) }
        } else {
            *old(row)
        },
{
    let same_execution: bool = match row.execution_id {
        Some(execution) => execution == execution_id,
        None => false,
    };
    if row.cluster_id != cluster_id || row.state != PausedRegistryState::Running
        || !same_execution {
        return false;
    }
    row.sandbox_expires_at = expires_at;
    row.updated_at = now;
    true
}

/// `RENEW_LEASE_SQL`: renews a row still held by `node_id`, and its deadline with it.
pub fn renew_lease(
    row: &mut RegistryRow,
    cluster_id: u128,
    node_id: &str,
    expires_at: Option<Timestamp>,
    ttl: Span,
    now: Timestamp,
) -> (r: bool)
    requires
        is_instant(now@ + ttl@),
    ensures
        r == touches(
            Statement::RenewHeld {
                cluster_id,
                node: node_id@,
                expires: instant_of(expires_at),
                now: now@,
                until: now@ + ttl@,
            },
            old(row)@,
        ),
        Some(final(row)@) == after(
            Statement::RenewHeld {
                cluster_id,
                node: node_id@,
                expires: instant_of(expires_at),
                now: now@,
                until: now@ + ttl@,
            },
            Some(old(row)@),
        ),
        r <==> old(row).cluster_id == cluster_id && match old(row).state {
            PausedRegistryState::Running
            | PausedRegistryState::Publishing
            | PausedRegistryState::LocalOnly => old(row).origin_node_id@ == node_id@,
            PausedRegistryState::Resuming => old(row).claimed_by_node_id matches Some(node) && node@
                == node_id@,
            PausedRegistryState::Paused => false,
        },
        !r ==> *final(row) == *old(row),
        r ==> *final(row) == (RegistryRow {
            lease_expires_at: final(row).lease_expires_at,
            sandbox_expires_at: expires_at,
            updated_at: now,
            ..*old(row)
        }) && (final(row).lease_expires_at matches Some(at) && at@ == now@ + ttl@),
{
    let at_origin: bool = (row.state == PausedRegistryState::Running || parked(row.state))
        && same_text(row.origin_node_id.as_str(), node_id);
    let claimed: bool = row.state == PausedRegistryState::Resuming && names(
        &row.claimed_by_node_id,
        node_id,
    );
    if row.cluster_id != cluster_id || !(at_origin || claimed) {
        return false;
    }
    row.lease_expires_at = Some(now.plus(ttl));
    row.sandbox_expires_at = expires_at;
    row.updated_at = now;
    true
}

/// `RENEW_PARKED_LEASE_SQL`: renews a heartbeat-confirmed parked row without changing its
/// deadline.
pub fn renew_parked_lease(
    row: &mut RegistryRow,
    cluster_id: u128,
    node_id: &str,
    ttl: Span,
    now: Timestamp,
) -> (r: bool)
    requires
        is_instant(now@ + ttl@),
    ensures
        r == touches(
            Statement::RenewParked {
                cluster_id,
                node: node_id@,
                now: now@,
                until: now@ + ttl@,
            },
            old(row)@,
        ),
        Some(final(row)@) == after(
            Statement::RenewParked {
                cluster_id,
                node: node_id@,
                now: now@,
                until: now@ + ttl@,
            },
            Some(old(row)@),
        ),
        r == (old(row).cluster_id == cluster_id && (old(row).state is Publishing || old(
            row,
        ).state is LocalOnly) && old(row).origin_node_id@ == node_id@),
        !r ==> *final(row) == *old(row),
        r ==> *final(row) == (RegistryRow {
            lease_expires_at: final(row).lease_expires_at,
            updated_at: now,
            ..*old(row)
        }) && (final(row).lease_expires_at matches Some(at) && at@ == now@ + ttl@),
{
    if row.cluster_id != cluster_id || !parked(row.state) || !same_text(
        row.origin_node_id.as_str(),
        node_id,
    ) {
        return false;
    }
    row.lease_expires_at = Some(now.plus(ttl));
    row.updated_at = now;
    true
}

/// `RENEW_LIVE_LEASE_SQL`: renews a heartbeat-confirmed running row by its real holder.
pub fn renew_live_lease(
    row: &mut RegistryRow,
    cluster_id: u128,
    node_id: &str,
    ttl: Span,
    now: Timestamp,
) -> (r: bool)
    requires
        is_instant(now@ + ttl@),
    ensures
        r == touches(
            Statement::RenewLive { cluster_id, node: node_id@, now: now@, until: now@ + ttl@ },
            old(row)@,
        ),
        Some(final(row)@) == after(
            Statement::RenewLive { cluster_id, node: node_id@, now: now@, until: now@ + ttl@ },
            Some(old(row)@),
        ),
        r == (old(row).cluster_id == cluster_id && old(row).state is Running && old(
            row,
        ).origin_node_id@ == node_id@),
        !r ==> *final(row) == *old(row),
        r ==> *final(row) == (RegistryRow {
            lease_expires_at: final(row).lease_expires_at,
            updated_at: now,
            ..*old(row)
        }) && (final(row).lease_expires_at matches Some(at) && at@ == now@ + ttl@),
{
    if row.cluster_id != cluster_id || row.state != PausedRegistryState::Running || !same_text(
        row.origin_node_id.as_str(),
        node_id,
    ) {
        return false;
    }
    row.lease_expires_at = Some(now.plus(ttl));
    row.updated_at = now;
    true
}

/// `RECLAIM_RELEASED_RUNNING_SQL`: releases a running row only after both lease and sandbox
/// deadline expire.
pub fn reclaim_running(row: &mut RegistryRow, cluster_id: u128, now: Timestamp) -> (r: bool)
    requires
        old(row).generation < i64::MAX,
    ensures
        r == touches(Statement::ReclaimRunning { cluster_id, now: now@ }, old(row)@),
        Some(final(row)@) == after(
            Statement::ReclaimRunning { cluster_id, now: now@ },
            Some(old(row)@),
        ),
        r <==> old(row).cluster_id == cluster_id && old(row).snapshot_id is Some && old(
            row,
        ).state is Running && (old(row).sandbox_expires_at matches Some(at) && at@ < now@) && match old(row).lease_expires_at {
            Some(at) => at@ < now@,
            None => old(row).updated_at@ < now@,
        },
        !r ==> *final(row) == *old(row),
        r ==> *final(row) == (RegistryRow {
            state: PausedRegistryState::Paused,
            claimed_by_node_id: None,
            execution_id: None,
            execution_started_at: None,
            generation: (old(row).generation + 1) as i64,
            updated_at: now,
            lease_expires_at: Some(now),
            ..*old(row)
        }),
{
    if row.cluster_id != cluster_id || row.snapshot_id.is_none() || row.state
        != PausedRegistryState::Running || !row.lease_expired(now) || !deadline_is_past(row, now) {
        return false;
    }
    give_back(row, now);
    true
}

/// `RECLAIM_RELEASED_RESUMING_SQL`: releases a resuming row on lease expiry alone; claims have no
/// user deadline.
pub fn reclaim_resuming(row: &mut RegistryRow, cluster_id: u128, now: Timestamp) -> (r: bool)
    requires
        old(row).generation < i64::MAX,
    ensures
        r == touches(Statement::ReclaimResuming { cluster_id, now: now@ }, old(row)@),
        Some(final(row)@) == after(
            Statement::ReclaimResuming { cluster_id, now: now@ },
            Some(old(row)@),
        ),
        r <==> old(row).cluster_id == cluster_id && old(row).snapshot_id is Some && old(
            row,
        ).state is Resuming && match old(row).lease_expires_at {
            Some(at) => at@ < now@,
            None => old(row).updated_at@ < now@,
        },
        !r ==> *final(row) == *old(row),
        r ==> *final(row) == (RegistryRow {
            state: PausedRegistryState::Paused,
            claimed_by_node_id: None,
            execution_id: None,
            execution_started_at: None,
            generation: (old(row).generation + 1) as i64,
            updated_at: now,
            lease_expires_at: Some(now),
            ..*old(row)
        }),
{
    if row.cluster_id != cluster_id || row.snapshot_id.is_none() || row.state
        != PausedRegistryState::Resuming || !row.lease_expired(now) {
        return false;
    }
    give_back(row, now);
    true
}

/// `RECLAIM_DISCARDED_SQL`: whether the statement deletes the row, an expired live one with no
/// durable snapshot.
pub fn reclaim_discards(row: &RegistryRow, cluster_id: u128, now: Timestamp) -> (r: bool)
    ensures
        r == touches(Statement::ReclaimDiscarded { cluster_id, now: now@ }, row@),
        r <==> row.cluster_id == cluster_id && row.snapshot_id is None && (row.state is Running
            || row.state is Resuming) && (row.sandbox_expires_at matches Some(at) && at@ < now@) && match row.lease_expires_at {
            Some(at) => at@ < now@,
            None => row.updated_at@ < now@,
        },
{
    row.cluster_id == cluster_id && row.snapshot_id.is_none() && (row.state
        == PausedRegistryState::Running || row.state == PausedRegistryState::Resuming)
        && row.lease_expired(now) && deadline_is_past(row, now)
}

/// The statement of `release_holdings_released_sql`: releases a durable live row held by
/// `node_id`.
pub fn release_holding(
    row: &mut RegistryRow,
    cluster_id: u128,
    node_id: &str,
    now: Timestamp,
) -> (r: bool)
    requires
        old(row).generation < i64::MAX,
    ensures
        r == touches(
            Statement::ReleaseHoldings { cluster_id, node: node_id@, now: now@ },
            old(row)@,
        ),
        Some(final(row)@) == after(
            Statement::ReleaseHoldings { cluster_id, node: node_id@, now: now@ },
            Some(old(row)@),
        ),
        r <==> old(row).cluster_id == cluster_id && old(row).snapshot_id is Some && match old(
            row,
        ).state {
            PausedRegistryState::Running => old(row).origin_node_id@ == node_id@,
            PausedRegistryState::Resuming => old(row).claimed_by_node_id matches Some(node) && node@
                == node_id@,
            _ => false,
        },
        !r ==> *final(row) == *old(row),
        r ==> *final(row) == (RegistryRow {
            state: PausedRegistryState::Paused,
            claimed_by_node_id: None,
            execution_id: None,
            execution_started_at: None,
            generation: (old(row).generation + 1) as i64,
            updated_at: now,
            lease_expires_at: Some(now),
            ..*old(row)
        }),
{
    if row.cluster_id != cluster_id || row.snapshot_id.is_none() || !holds_live(row, node_id) {
        return false;
    }
    give_back(row, now);
    true
}

/// The statement of `release_holdings_discarded_sql`: whether it deletes the row, a non-durable
/// live one held by `node_id`.
pub fn release_discards(row: &RegistryRow, cluster_id: u128, node_id: &str) -> (r: bool)
    ensures
        r == touches(Statement::DiscardHoldings { cluster_id, node: node_id@ }, row@),
        r <==> row.cluster_id == cluster_id && row.snapshot_id is None && match row.state {
            PausedRegistryState::Running => row.origin_node_id@ == node_id@,
            PausedRegistryState::Resuming => row.claimed_by_node_id matches Some(node) && node@
                == node_id@,
            _ => false,
        },
{
    row.cluster_id == cluster_id && row.snapshot_id.is_none() && holds_live(row, node_id)
}

/// `REMOVE_SQL`: whether the statement deletes the row, one exact generation.
pub fn removes(row: &RegistryRow, cluster_id: u128, generation: i64) -> (r: bool)
    ensures
        r == touches(Statement::Remove { cluster_id, generation: generation as int }, row@),
        r == (row.cluster_id == cluster_id && row.generation == generation),
{
    row.cluster_id == cluster_id && row.generation == generation
}

/// `EXTEND_LEASES_SQL`, the update: moves the lease of a row by `downtime` and `ttl`.
pub fn extend_lease(row: &mut RegistryRow, cluster_id: u128, downtime: Span, ttl: Span) -> (r: bool)
    requires
        is_instant(lease_ends(old(row)@) + downtime@),
        is_instant(lease_ends(old(row)@) + downtime@ + ttl@),
    ensures
        r == touches(Statement::ExtendLease { cluster_id, by: downtime@ + ttl@ }, old(row)@),
        Some(final(row)@) == after(
            Statement::ExtendLease { cluster_id, by: downtime@ + ttl@ },
            Some(old(row)@),
        ),
        r == (old(row).cluster_id == cluster_id),
        !r ==> *final(row) == *old(row),
        r ==> *final(row) == (RegistryRow {
            lease_expires_at: final(row).lease_expires_at,
            ..*old(row)
        }) && (final(row).lease_expires_at matches Some(end) && end@ == match old(
            row,
        ).lease_expires_at {
            Some(at) => at@,
            None => old(row).updated_at@,
        } + downtime@ + ttl@),
{
    if row.cluster_id != cluster_id {
        return false;
    }
    let ends = match row.lease_expires_at {
        Some(at) => at,
        None => row.updated_at,
    };
    row.lease_expires_at = Some(ends.plus(downtime).plus(ttl));
    true
}

// ---- laws --------------------------------------------------------------------

/// The identity axis: a running, publishing or resuming row, and no other, names an execution and
/// when it started.
pub open spec fn axis_holds(r: RowModel) -> bool {
    &&& (r.state is Running || r.state is Publishing || r.state is Resuming) == (r.execution is Some)
    &&& (r.execution is None) == (r.started is None)
}

/// A row that is paused or being resumed names the snapshot it can restore.
pub open spec fn is_restorable(r: RowModel) -> bool {
    r.state is Paused || r.state is Resuming ==> r.snapshot is Some
}

/// A row names a claimant exactly while it is being resumed.
pub open spec fn claimant_holds(r: RowModel) -> bool {
    (r.claimant is Some) == (r.state is Resuming)
}

/// The invariant of every row.
pub open spec fn is_sound(r: RowModel) -> bool {
    axis_holds(r) && is_restorable(r) && claimant_holds(r)
}

/// Every statement keeps every row sound, and creates only sound rows.
pub proof fn statements_keep_rows_sound(s: Statement, slot: Option<RowModel>)
    requires
        slot matches Some(r) ==> is_sound(r),
    ensures
        after(s, slot) matches Some(r) ==> is_sound(r),
{
}

/// The generation of a row never goes back, and a row never changes sandbox or cluster; a claim,
/// a start, a repeated pause and a release each take a new generation.
pub proof fn generations_never_go_back(s: Statement, r: RowModel)
    ensures
        after(s, Some(r)) matches Some(next) ==> {
            &&& next.generation >= r.generation
            &&& next.sandbox_id == r.sandbox_id
            &&& next.cluster_id == r.cluster_id
            &&& touches(s, r) && (s is BeginPause || s is Claim || s is MarkRunning
                || s is ReclaimRunning || s is ReclaimResuming || s is ReleaseHoldings)
                ==> next.generation == r.generation + 1
        },
{
}

/// A running or resuming row is never claimable, however long its lease has lapsed.
pub proof fn live_rows_are_never_claimable(r: RowModel, durable_only: bool, now: int)
    requires
        is_live(r.state),
    ensures
        !is_claimable(r, durable_only, now),
{
}

/// While restart grace lasts a claim takes only durable paused rows, and whatever it takes then
/// it takes after grace as well.
pub proof fn grace_only_restricts_claims(r: RowModel, now: int)
    ensures
        is_claimable(r, true, now) ==> r.state is Paused && r.snapshot is Some,
        is_claimable(r, true, now) ==> is_claimable(r, false, now),
{
}

/// Of racing claims on one row exactly one wins: once a claim took the row, no other claim takes
/// it, at any time, until the claim is given up.
pub proof fn one_claim_wins(r: RowModel, first: Statement, second: Statement)
    requires
        first is Claim,
        second is Claim,
        touches(first, r),
    ensures
        after(first, Some(r)) is Some,
        !touches(second, after(first, Some(r))->0),
{
}

/// A claimant that lost cannot start a second run behind the winner's back: while the winner's
/// claim stands, a start by another claimant or of another execution touches nothing.
pub proof fn losers_cannot_start(r: RowModel, claim: Statement, start: Statement)
    requires
        claim is Claim,
        start is MarkRunning,
        touches(claim, r),
        start->MarkRunning_claimant != claim->Claim_node || start->MarkRunning_execution
            != claim->Claim_execution,
    ensures
        !touches(start, after(claim, Some(r))->0),
{
}

/// The winner of a claim can finish it: its start is adopted, the row then runs on the holder
/// with no claimant, and a repeated start of the same execution is adopted again and keeps the
/// time the execution started.
pub proof fn winners_finish_and_may_retry(
    r: RowModel,
    claim: Statement,
    start: Statement,
    retry: Statement,
)
    requires
        claim is Claim,
        start is MarkRunning,
        retry is MarkRunning,
        touches(claim, r),
        start->MarkRunning_cluster_id == claim->Claim_cluster_id,
        start->MarkRunning_claimant == claim->Claim_node,
        start->MarkRunning_execution == claim->Claim_execution,
        retry->MarkRunning_cluster_id == start->MarkRunning_cluster_id,
        retry->MarkRunning_claimant == start->MarkRunning_claimant,
        retry->MarkRunning_holder == start->MarkRunning_holder,
        retry->MarkRunning_execution == start->MarkRunning_execution,
    ensures
        ({
            let claimed = after(claim, Some(r))->0;
            let running = after(start, Some(claimed))->0;
            let again = after(retry, Some(running))->0;
            &&& touches(start, claimed)
            &&& running.state is Running
            &&& running.origin == start->MarkRunning_holder
            &&& running.claimant is None
            &&& running.execution == Some(start->MarkRunning_execution)
            &&& touches(retry, running)
            &&& again.state is Running
            &&& again.origin == running.origin
            &&& again.execution == running.execution
            &&& again.started == running.started
        }),
{
}

/// A pause of another incarnation than the row's is refused, and a pause of the row's own is not,
/// whatever the row's state; the refused row is unchanged.
pub proof fn pauses_are_fenced_by_execution(r: RowModel, pause: Statement)
    requires
        pause is BeginPause,
        r.cluster_id == pause->BeginPause_cluster_id,
    ensures
        touches(pause, r) <==> r.execution == Some(pause->BeginPause_execution),
        !touches(pause, r) ==> after(pause, Some(r)) == Some(r),
{
}

/// A pause that was begun and completed lands on a paused row with the new snapshot and no
/// execution, and the generation to complete under is the one that beginning handed back.
pub proof fn completed_pauses_are_durable(
    slot: Option<RowModel>,
    pause: Statement,
    complete: Statement,
)
    requires
        pause is BeginPause,
        complete is CompletePause,
        slot matches Some(r) ==> touches(pause, r),
        complete->CompletePause_cluster_id == pause->BeginPause_cluster_id,
        complete->CompletePause_generation == after(pause, slot)->0.generation,
    ensures
        ({
            let begun = after(pause, slot)->0;
            let done = after(complete, Some(begun))->0;
            &&& touches(complete, begun)
            &&& done.state is Paused
            &&& done.snapshot == Some(complete->CompletePause_snapshot)
            &&& done.execution is None
            &&& done.started is None
        }),
{
}

/// A pause that stays local keeps the snapshot the row had, and none is made up for it.
pub proof fn local_pauses_keep_the_snapshot(
    slot: Option<RowModel>,
    pause: Statement,
    local: Statement,
)
    requires
        pause is BeginPause,
        local is MarkLocalOnly,
        slot matches Some(r) ==> touches(pause, r),
        local->MarkLocalOnly_cluster_id == pause->BeginPause_cluster_id,
        local->MarkLocalOnly_generation == after(pause, slot)->0.generation,
    ensures
        ({
            let begun = after(pause, slot)->0;
            let done = after(local, Some(begun))->0;
            &&& touches(local, begun)
            &&& done.state is LocalOnly
            &&& done.snapshot == match slot {
                Some(r) => r.snapshot,
                None => None,
            }
        }),
{
}

/// A stale generation completes, parks, releases and removes nothing.
pub proof fn stale_generations_touch_nothing(s: Statement, r: RowModel)
    requires
        match s {
            Statement::CompletePause { generation, .. } => generation != r.generation,
            Statement::MarkLocalOnly { generation, .. } => generation != r.generation,
            Statement::ReleaseClaim { generation, .. } => generation != r.generation,
            Statement::Remove { generation, .. } => generation != r.generation,
            _ => false,
        },
    ensures
        after(s, Some(r)) == Some(r),
{
}

/// A claim that is released leaves a paused row without claimant or execution, which can be
/// claimed again.
pub proof fn released_claims_can_be_claimed_again(
    r: RowModel,
    claim: Statement,
    release: Statement,
    again: Statement,
)
    requires
        claim is Claim,
        release is ReleaseClaim,
        again is Claim,
        touches(claim, r),
        release->ReleaseClaim_cluster_id == claim->Claim_cluster_id,
        release->ReleaseClaim_generation == after(claim, Some(r))->0.generation,
        again->Claim_cluster_id == claim->Claim_cluster_id,
    ensures
        ({
            let claimed = after(claim, Some(r))->0;
            let free = after(release, Some(claimed))->0;
            &&& touches(release, claimed)
            &&& free.state is Paused
            &&& free.claimant is None
            &&& free.execution is None
            &&& touches(again, free)
        }),
{
}

/// Reclaiming takes a running row only when its lease has lapsed and its deadline has passed, and
/// a resuming row on a lapsed lease alone; what has a snapshot is given back to it and is never
/// discarded.
pub proof fn reclaim_conditions(r: RowModel, cluster_id: u128, now: int)
    requires
        r.cluster_id == cluster_id,
        is_live(r.state),
    ensures
        ({
            let running = touches(Statement::ReclaimRunning { cluster_id, now }, r);
            let resuming = touches(Statement::ReclaimResuming { cluster_id, now }, r);
            let discarded = touches(Statement::ReclaimDiscarded { cluster_id, now }, r);
            &&& r.snapshot is Some ==> !discarded && ((running || resuming) <==> lease_lapsed(r, now)
                && (r.state is Resuming || deadline_passed(r, now)))
            &&& r.snapshot is None ==> !running && !resuming && (discarded <==> lease_lapsed(r, now)
                && deadline_passed(r, now))
        }),
{
}

/// A row whose lease has not lapsed survives every reclaim statement.
pub proof fn leased_rows_survive_reclaim(s: Statement, r: RowModel, now: int)
    requires
        s == (Statement::ReclaimRunning { cluster_id: r.cluster_id, now }) || s
            == (Statement::ReclaimResuming { cluster_id: r.cluster_id, now }) || s
            == (Statement::ReclaimDiscarded { cluster_id: r.cluster_id, now }),
        !lease_lapsed(r, now),
    ensures
        after(s, Some(r)) == Some(r),
{
}

/// A row that was given back is paused, free to claim, and no reclaim or release touches it
/// again.
pub proof fn given_back_rows_are_free(r: RowModel, now: int, claim: Statement, later: Statement)
    requires
        r.snapshot is Some,
        claim is Claim,
        claim->Claim_cluster_id == r.cluster_id,
        later is ReclaimRunning || later is ReclaimResuming || later is ReclaimDiscarded
            || later is ReleaseHoldings || later is DiscardHoldings,
    ensures
        given_back(r, now).state is Paused,
        given_back(r, now).claimant is None,
        touches(claim, given_back(r, now)),
        !touches(later, given_back(r, now)),
{
}

/// A renewal by a node that does not hold the row changes nothing, and a renewal that does change
/// a row leaves all but its lease, its deadline and its update time alone.
pub proof fn renewals_touch_only_leases(s: Statement, r: RowModel)
    requires
        s is RenewHeld || s is RenewParked || s is RenewLive || s is RenewDeadline
            || s is ExtendLease,
    ensures
        after(s, Some(r)) is Some,
        ({
            let next = after(s, Some(r))->0;
            &&& next == (RowModel {
                lease: next.lease,
                deadline: next.deadline,
                updated_at: next.updated_at,
                ..r
            })
            &&& s is RenewParked || s is RenewLive || s is ExtendLease ==> next.deadline == r.deadline
            &&& s is RenewDeadline ==> next.lease == r.lease
            &&& s matches Statement::RenewHeld { node, .. } ==> (r.origin != node && r.claimant
                != Some(node) ==> next == r)
            &&& s matches Statement::RenewParked { node, .. } ==> (r.origin != node ==> next == r)
            &&& s matches Statement::RenewLive { node, .. } ==> (r.origin != node ==> next == r)
            &&& s matches Statement::RenewDeadline { execution, .. } ==> (r.execution != Some(
                execution,
            ) ==> next == r)
        }),
{
}

/// Two statements of one cluster cannot reach another cluster's row.
pub proof fn clusters_are_isolated(s: Statement, r: RowModel)
    requires
        match s {
            Statement::BeginPause { cluster_id, .. } => cluster_id != r.cluster_id,
            Statement::CompletePause { cluster_id, .. } => cluster_id != r.cluster_id,
            Statement::MarkLocalOnly { cluster_id, .. } => cluster_id != r.cluster_id,
            Statement::Claim { cluster_id, .. } => cluster_id != r.cluster_id,
            Statement::ReleaseClaim { cluster_id, .. } => cluster_id != r.cluster_id,
            Statement::MarkRunning { cluster_id, .. } => cluster_id != r.cluster_id,
            Statement::RenewDeadline { cluster_id, .. } => cluster_id != r.cluster_id,
            Statement::RenewHeld { cluster_id, .. } => cluster_id != r.cluster_id,
            Statement::RenewParked { cluster_id, .. } => cluster_id != r.cluster_id,
            Statement::RenewLive { cluster_id, .. } => cluster_id != r.cluster_id,
            Statement::ReclaimRunning { cluster_id, .. } => cluster_id != r.cluster_id,
            Statement::ReclaimResuming { cluster_id, .. } => cluster_id != r.cluster_id,
            Statement::ReclaimDiscarded { cluster_id, .. } => cluster_id != r.cluster_id,
            Statement::ReleaseHoldings { cluster_id, .. } => cluster_id != r.cluster_id,
            Statement::DiscardHoldings { cluster_id, .. } => cluster_id != r.cluster_id,
            Statement::Remove { cluster_id, .. } => cluster_id != r.cluster_id,
            Statement::ExtendLease { cluster_id, .. } => cluster_id != r.cluster_id,
        },
    ensures
        after(s, Some(r)) == Some(r),
{
}

/// Entering restart grace is conservative: it moves a lease later, never earlier.
pub proof fn grace_only_extends_leases(r: RowModel, cluster_id: u128, downtime: int, ttl: int)
    requires
        downtime >= 0,
        ttl >= 0,
    ensures
        lease_ends(after(Statement::ExtendLease { cluster_id, by: downtime + ttl }, Some(r))->0)
            >= lease_ends(r),
        r.cluster_id == cluster_id ==> lease_ends(
            after(Statement::ExtendLease { cluster_id, by: downtime + ttl }, Some(r))->0,
        ) == lease_ends(r) + downtime + ttl,
{
}

/// A release of a node's holdings frees what the node held and nothing else: durable rows go back
/// to their snapshot, others are deleted.
pub proof fn releases_free_only_the_nodes_rows(r: RowModel, cluster_id: u128, node: Seq<char>, now: int)
    requires
        r.cluster_id == cluster_id,
    ensures
        ({
            let release = Statement::ReleaseHoldings { cluster_id, node, now };
            let discard = Statement::DiscardHoldings { cluster_id, node };
            let end = after(discard, after(release, Some(r)));
            if !is_live_holding_of(r, node) {
                end == Some(r)
            } else if r.snapshot is Some {
                end == Some(given_back(r, now))
            } else {
                end is None
            }
        }),
{
}

} // verus!
