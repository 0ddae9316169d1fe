//! Laws of the registry's statements, stated over the columns of a row.
//!
//! Each says which rows a statement may reach or what it leaves behind in terms of the columns
//! themselves, or how one statement bears on a later one.

use super::super::types::PausedRegistryState;
use super::row::RegistryRow;
use super::statements::{after, begin_pause_statement, claim_statement, running_statement, touches};
use super::statements::{ClaimRequest, PauseRequest, RowModel, RunningReport, Statement};
use crate::time::{Span, Timestamp};
use vstd::prelude::*;

verus! {

/// A row is read column by column: equal rows of the model have equal columns, and each column of
/// the model is the column of that name.
pub proof fn rows_are_read_by_column(row: RegistryRow)
    ensures
        row@.sandbox_id == row.sandbox_id,
        row@.cluster_id == row.cluster_id,
        row@.state == row.state,
        row@.generation == row.generation,
        row@.origin == row.origin_node_id@,
        row@.claimant is Some <==> row.claimed_by_node_id is Some,
        row.claimed_by_node_id matches Some(node) ==> row@.claimant == Some(node@),
        row@.snapshot == row.snapshot_id,
        row@.paused_at == row.paused_at@,
        row@.updated_at == row.updated_at@,
        row@.lease is Some <==> row.lease_expires_at is Some,
        row.lease_expires_at matches Some(at) ==> row@.lease == Some(at@),
        row@.deadline is Some <==> row.sandbox_expires_at is Some,
        row.sandbox_expires_at matches Some(at) ==> row@.deadline == Some(at@),
        row@.execution == row.execution_id,
        row@.started is Some <==> row.execution_started_at is Some,
        row.execution_started_at matches Some(at) ==> row@.started == Some(at@),
{
}

/// A statement says what its request says, and grants a lease of one full time to live.
pub proof fn statements_say_what_is_asked(
    pause: PauseRequest,
    claim: ClaimRequest,
    report: RunningReport,
    ttl: Span,
    now: Timestamp,
)
    ensures
        begin_pause_statement(pause, ttl, now) matches Statement::BeginPause {
            sandbox_id,
            cluster_id,
            origin,
            execution,
            now: at,
            until,
        } && sandbox_id == pause.sandbox_id && cluster_id == pause.cluster_id && origin
            == pause.origin_node_id@ && execution == pause.execution_id && at == now@ && until - at
            == ttl@,
        claim_statement(claim, ttl, now) matches Statement::Claim {
            durable_only,
            cluster_id,
            node,
            execution,
            now: at,
            until,
        } && durable_only == claim.durable_only && cluster_id == claim.cluster_id && node
            == claim.node_id@ && execution == claim.execution_id && at == now@ && until - at
            == ttl@,
        running_statement(report, ttl, now) matches Statement::MarkRunning {
            cluster_id,
            claimant,
            holder,
            execution,
            expires,
            now: at,
            until,
        } && cluster_id == report.cluster_id && claimant == report.claimant@ && holder
            == report.holder@ && execution == report.execution_id && (expires is Some
            <==> report.expires_at is Some) && (report.expires_at matches Some(e) ==> expires
            == Some(e@)) && at == now@ && until - at == ttl@,
{
}

/// A claim takes a row only where nobody can lose work by it: the row has a snapshot to restore,
/// nothing runs or starts, and where its pause is still on its origin node the lease of that node
/// has lapsed, and restart grace is over.
pub proof fn claims_take_only_free_rows(
    r: RowModel,
    durable_only: bool,
    cluster_id: u128,
    claim: Statement,
)
    requires
        claim is Claim,
        claim->Claim_durable_only == durable_only,
        claim->Claim_cluster_id == cluster_id,
        touches(claim, r),
    ensures
        r.cluster_id == cluster_id,
        r.snapshot is Some,
        r.state != PausedRegistryState::Running,
        r.state != PausedRegistryState::Resuming,
        r.state != PausedRegistryState::Paused ==> !durable_only,
        r.state != PausedRegistryState::Paused && r.lease is Some ==> r.lease->0
            < claim->Claim_now,
        r.state != PausedRegistryState::Paused && r.lease is None ==> r.updated_at
            < claim->Claim_now,
{
}

/// A claim takes every free row: a paused one with a snapshot at any time, and past restart grace
/// a publishing or local-only one with a snapshot as soon as its lease has lapsed.
pub proof fn claims_take_every_free_row(r: RowModel, claim: Statement)
    requires
        claim is Claim,
        claim->Claim_cluster_id == r.cluster_id,
        r.snapshot is Some,
    ensures
        r.state == PausedRegistryState::Paused ==> touches(claim, r),
        !claim->Claim_durable_only && (r.state == PausedRegistryState::Publishing || r.state
            == PausedRegistryState::LocalOnly) && (r.lease matches Some(at) && at
            < claim->Claim_now) ==> touches(claim, r),
        !claim->Claim_durable_only && (r.state == PausedRegistryState::Publishing || r.state
            == PausedRegistryState::LocalOnly) && r.lease is None && r.updated_at < claim->Claim_now
            ==> touches(claim, r),
{
}

/// A row that was claimed is the claimant's: it is being resumed by that node and execution, from
/// the snapshot it had, and no reclaim takes it from the claimant before its lease ends.
pub proof fn claimed_rows_are_the_claimants(r: RowModel, claim: Statement, later: Statement)
    requires
        claim is Claim,
        touches(claim, r),
        match later {
            Statement::ReclaimRunning { now, .. } => now <= claim->Claim_until,
            Statement::ReclaimResuming { now, .. } => now <= claim->Claim_until,
            Statement::ReclaimDiscarded { now, .. } => now <= claim->Claim_until,
            Statement::Claim { .. } => true,
            _ => false,
        },
    ensures
        after(claim, Some(r)) matches Some(next) && next.state == PausedRegistryState::Resuming
            && next.claimant == Some(claim->Claim_node) && next.execution == Some(
            claim->Claim_execution,
        ) && next.started == Some(claim->Claim_now) && next.snapshot == r.snapshot && next.origin
            == r.origin && next.lease == Some(claim->Claim_until) && next.deadline == r.deadline
            && next.paused_at == r.paused_at && next.updated_at == claim->Claim_now
            && next.generation == r.generation + 1 && after(later, Some(next)) == Some(next),
{
}

/// A start wakes a row that is neither running nor being resumed only on its own node: the
/// starter is the node that the pause is on, and nobody has claimed the row.
pub proof fn starts_wake_only_their_own_rows(r: RowModel, start: Statement)
    requires
        start is MarkRunning,
        touches(start, r),
        r.state != PausedRegistryState::Resuming,
        r.state != PausedRegistryState::Running,
    ensures
        r.origin == start->MarkRunning_claimant,
        r.claimant is None,
        r.cluster_id == start->MarkRunning_cluster_id,
{
}

/// A start finishes only its own claim, and repeats only its own run: on a live row its execution
/// is the row's, and the claimant, or where the row runs already the holder, is the row's too.
pub proof fn starts_on_live_rows_are_fenced(r: RowModel, start: Statement)
    requires
        start is MarkRunning,
        touches(start, r),
        r.state == PausedRegistryState::Resuming || r.state == PausedRegistryState::Running,
    ensures
        r.execution == Some(start->MarkRunning_execution),
        r.state == PausedRegistryState::Resuming ==> r.claimant == Some(
            start->MarkRunning_claimant,
        ),
        r.state == PausedRegistryState::Running ==> r.origin == start->MarkRunning_holder,
        r.cluster_id == start->MarkRunning_cluster_id,
{
}

/// A start is adopted wherever it may be: on the claim it finishes, on an unclaimed pause of its
/// own node, and on the run it repeats.
pub proof fn rightful_starts_are_adopted(r: RowModel, start: Statement)
    requires
        start is MarkRunning,
        start->MarkRunning_cluster_id == r.cluster_id,
    ensures
        r.state == PausedRegistryState::Resuming && r.claimant == Some(start->MarkRunning_claimant)
            && r.execution == Some(start->MarkRunning_execution) ==> touches(start, r),
        r.state == PausedRegistryState::Running && r.origin == start->MarkRunning_holder
            && r.execution == Some(start->MarkRunning_execution) ==> touches(start, r),
        r.state == PausedRegistryState::Paused && r.origin == start->MarkRunning_claimant
            && r.claimant is None ==> touches(start, r),
        r.state == PausedRegistryState::Publishing && r.origin == start->MarkRunning_claimant
            && r.claimant is None ==> touches(start, r),
        r.state == PausedRegistryState::LocalOnly && r.origin == start->MarkRunning_claimant
            && r.claimant is None ==> touches(start, r),
{
}

/// A started row runs on its holder under the start's execution, deadline and lease; the instant
/// that an execution started is kept by a repeated start and set by any other. The snapshot and
/// the instant of the pause stay.
pub proof fn started_rows_run_on_their_holder(r: RowModel, start: Statement)
    requires
        start is MarkRunning,
        touches(start, r),
    ensures
        after(start, Some(r)) matches Some(next) && next.state == PausedRegistryState::Running
            && next.origin == start->MarkRunning_holder && next.claimant is None && next.execution
            == Some(start->MarkRunning_execution) && next.deadline == start->MarkRunning_expires
            && next.lease == Some(start->MarkRunning_until) && next.updated_at
            == start->MarkRunning_now && next.generation == r.generation + 1 && next.snapshot
            == r.snapshot && next.paused_at == r.paused_at && (r.state
            == PausedRegistryState::Running ==> next.started == r.started) && (r.state
            != PausedRegistryState::Running ==> next.started == Some(start->MarkRunning_now)),
{
}

/// The lease that a statement grants, where it grants one.
pub open spec fn granted(s: Statement) -> Option<int> {
    match s {
        Statement::BeginPause { until, .. } => Some(until),
        Statement::CompletePause { until, .. } => Some(until),
        Statement::MarkLocalOnly { until, .. } => Some(until),
        Statement::Claim { until, .. } => Some(until),
        Statement::ReleaseClaim { until, .. } => Some(until),
        Statement::MarkRunning { until, .. } => Some(until),
        Statement::RenewHeld { until, .. } => Some(until),
        Statement::RenewParked { until, .. } => Some(until),
        Statement::RenewLive { until, .. } => Some(until),
        _ => None,
    }
}

/// A renewal that touches a row ends with a lease to its full time: whatever lease the row had
/// before, it then ends at the end of the granted one, and no claim or reclaim up to that instant
/// takes the row from its holder. Every other statement that grants a lease does the same.
pub proof fn granted_leases_run_their_full_time(r: RowModel, grant: Statement, until: int)
    requires
        touches(grant, r),
        granted(grant) == Some(until),
    ensures
        after(grant, Some(r)) is Some,
        after(grant, Some(r))->0.lease == Some(until),
        forall|cluster_id: u128, now: int|
            now <= until ==> !#[trigger] touches(
                Statement::ReclaimRunning { cluster_id, now },
                after(grant, Some(r))->0,
            ),
        forall|cluster_id: u128, now: int|
            now <= until ==> !#[trigger] touches(
                Statement::ReclaimResuming { cluster_id, now },
                after(grant, Some(r))->0,
            ),
        forall|cluster_id: u128, now: int|
            now <= until ==> !#[trigger] touches(
                Statement::ReclaimDiscarded { cluster_id, now },
                after(grant, Some(r))->0,
            ),
        forall|claim: Statement|
            claim is Claim && claim->Claim_now <= until && after(grant, Some(r))->0.state
                != PausedRegistryState::Paused ==> !#[trigger] touches(
                claim,
                after(grant, Some(r))->0,
            ),
{
}

/// A renewal renews what its node holds: a running, publishing or local-only row on that node, and
/// a row that the node is resuming. It reaches all of those and no other.
pub proof fn renewals_reach_what_the_node_holds(
    r: RowModel,
    node: Seq<char>,
    expires: Option<int>,
    now: int,
    until: int,
)
    ensures
        ({
            let cluster_id = r.cluster_id;
            let held = touches(Statement::RenewHeld { cluster_id, node, expires, now, until }, r);
            let parked = touches(Statement::RenewParked { cluster_id, node, now, until }, r);
            let live = touches(Statement::RenewLive { cluster_id, node, now, until }, r);
            &&& r.state == PausedRegistryState::Paused ==> !held && !parked && !live
            &&& r.state == PausedRegistryState::Resuming ==> !parked && !live && (held <==> r.claimant
                == Some(node))
            &&& r.state == PausedRegistryState::Running ==> !parked && held == live && (live
                <==> r.origin == node)
            &&& r.state == PausedRegistryState::Publishing || r.state
                == PausedRegistryState::LocalOnly ==> !live && held == parked && (parked
                <==> r.origin == node)
        }),
{
}

/// What a renewal writes: the deadline it was given, or none of its own where a heartbeat
/// renews, and the instant of the renewal.
pub proof fn renewals_write_their_own_columns(r: RowModel, s: Statement)
    requires
        touches(s, r),
    ensures
        s matches Statement::RenewHeld { expires, now, .. } ==> (after(s, Some(r)) matches Some(
            next,
        ) && next.deadline == expires && next.updated_at == now),
        s matches Statement::RenewDeadline { expires, now, .. } ==> (after(s, Some(r)) matches Some(
            next,
        ) && next.deadline == expires && next.updated_at == now && next.lease == r.lease),
        s matches Statement::RenewParked { now, .. } ==> (after(s, Some(r)) matches Some(next)
            && next.deadline == r.deadline && next.updated_at == now),
        s matches Statement::RenewLive { now, .. } ==> (after(s, Some(r)) matches Some(next)
            && next.deadline == r.deadline && next.updated_at == now),
{
}

/// A deadline is renewed for the execution that runs, and for no other row.
pub proof fn deadlines_belong_to_the_running_execution(r: RowModel, s: Statement)
    requires
        s is RenewDeadline,
        s->RenewDeadline_cluster_id == r.cluster_id,
    ensures
        touches(s, r) <==> r.state == PausedRegistryState::Running && r.execution == Some(
            s->RenewDeadline_execution,
        ),
{
}

/// Nothing is reclaimed early: whatever a reclaim takes was live and its lease had ended, and a row
/// that runs, or that has nothing to be given back to, had a deadline that had passed as well. What
/// has a snapshot is kept, and what has none is deleted.
pub proof fn nothing_is_reclaimed_early(r: RowModel, reclaim: Statement, now: int)
    requires
        reclaim == (Statement::ReclaimRunning { cluster_id: r.cluster_id, now }) || reclaim
            == (Statement::ReclaimResuming { cluster_id: r.cluster_id, now }) || reclaim
            == (Statement::ReclaimDiscarded { cluster_id: r.cluster_id, now }),
        touches(reclaim, r),
    ensures
        r.state == PausedRegistryState::Running || r.state == PausedRegistryState::Resuming,
        r.lease matches Some(at) ==> at < now,
        r.lease is None ==> r.updated_at < now,
        r.state == PausedRegistryState::Running || r.snapshot is None ==> (
        r.deadline matches Some(at) && at < now),
        after(reclaim, Some(r)) is None <==> r.snapshot is None,
        after(reclaim, Some(r)) matches Some(next) ==> next.state == PausedRegistryState::Paused
            && next.snapshot == r.snapshot && next.claimant is None && next.execution is None
            && next.started is None && next.generation == r.generation + 1 && next.updated_at == now
            && next.lease == Some(now) && next.origin == r.origin && next.deadline == r.deadline
            && next.paused_at == r.paused_at,
{
}

/// Everything that has expired is reclaimed: a live row whose lease has ended, and whose deadline
/// has passed where it needs one, is taken by exactly one of the three statements of a pass.
pub proof fn everything_expired_is_reclaimed(r: RowModel, now: int)
    requires
        r.state == PausedRegistryState::Running || r.state == PausedRegistryState::Resuming,
        r.lease matches Some(at) ==> at < now,
        r.lease is None ==> r.updated_at < now,
        (r.deadline matches Some(at) && at < now) || (r.state == PausedRegistryState::Resuming
            && r.snapshot is Some),
    ensures
        touches(Statement::ReclaimRunning { cluster_id: r.cluster_id, now }, r) <==> r.snapshot
            is Some && r.state == PausedRegistryState::Running,
        touches(Statement::ReclaimResuming { cluster_id: r.cluster_id, now }, r) <==> r.snapshot
            is Some && r.state == PausedRegistryState::Resuming,
        touches(Statement::ReclaimDiscarded { cluster_id: r.cluster_id, now }, r) <==> r.snapshot
            is None,
{
}

/// A release of a node's holdings takes exactly what runs on the node and what the node is
/// resuming, whatever its lease; what has a snapshot goes back to it and what has none goes.
pub proof fn releases_take_what_the_node_runs(r: RowModel, node: Seq<char>, now: int)
    ensures
        ({
            let release = Statement::ReleaseHoldings { cluster_id: r.cluster_id, node, now };
            let discard = Statement::DiscardHoldings { cluster_id: r.cluster_id, node };
            &&& touches(release, r) || touches(discard, r) <==> (r.state
                == PausedRegistryState::Running && r.origin == node) || (r.state
                == PausedRegistryState::Resuming && r.claimant == Some(node))
            &&& touches(release, r) ==> r.snapshot is Some && (after(
                release,
                Some(r),
            ) matches Some(next) && next.state == PausedRegistryState::Paused && next.snapshot
                == r.snapshot && next.claimant is None && next.execution is None && next.generation
                == r.generation + 1 && next.updated_at == now && next.lease == Some(now))
            &&& touches(discard, r) ==> r.snapshot is None && after(discard, Some(r)) is None
        }),
{
}

/// A pause ends as it was begun: only a publishing row of the very generation is completed or
/// parked, and every such row is; a claim is released and a row removed by its generation too.
pub proof fn generations_fence_the_end_of_a_pause(r: RowModel, s: Statement)
    ensures
        s is CompletePause && s->CompletePause_cluster_id == r.cluster_id ==> (touches(s, r)
            <==> r.state == PausedRegistryState::Publishing && r.generation
            == s->CompletePause_generation),
        s is MarkLocalOnly && s->MarkLocalOnly_cluster_id == r.cluster_id ==> (touches(s, r)
            <==> r.state == PausedRegistryState::Publishing && r.generation
            == s->MarkLocalOnly_generation),
        s is ReleaseClaim && s->ReleaseClaim_cluster_id == r.cluster_id ==> (touches(s, r)
            <==> r.state == PausedRegistryState::Resuming && r.generation
            == s->ReleaseClaim_generation),
        s is Remove && s->Remove_cluster_id == r.cluster_id ==> (touches(s, r) <==> r.generation
            == s->Remove_generation) && (touches(s, r) ==> after(s, Some(r)) is None),
        s is ExtendLease && s->ExtendLease_cluster_id == r.cluster_id ==> touches(s, r),
{
}

/// Each column is written by the statements it belongs to and by no other: the snapshot by the end
/// of a pause alone, the origin by the begin of a pause or a start, the instant of the pause by its
/// begin, the deadline by a start or a renewal that carries one. Nothing moves a row between
/// sandboxes or clusters, and only a discard, a release without snapshot or a removal deletes one.
pub proof fn columns_belong_to_their_statements(s: Statement, r: RowModel)
    ensures
        after(s, Some(r)) is None ==> s is ReclaimDiscarded || s is DiscardHoldings || s is Remove,
        after(s, Some(r)) matches Some(next) ==> {
            &&& next.sandbox_id == r.sandbox_id
            &&& next.cluster_id == r.cluster_id
            &&& next.snapshot != r.snapshot ==> s is CompletePause
            &&& next.origin != r.origin ==> s is BeginPause || s is MarkRunning
            &&& next.paused_at != r.paused_at ==> s is BeginPause
            &&& next.deadline != r.deadline ==> s is MarkRunning || s is RenewDeadline
                || s is RenewHeld
            &&& next.claimant is Some && next.claimant != r.claimant ==> s is Claim
            &&& next.execution is Some && next.execution != r.execution ==> s is Claim
                || s is MarkRunning
            &&& next.started is Some && next.started != r.started ==> s is Claim || s is MarkRunning
            &&& next.state == PausedRegistryState::Running && r.state
                != PausedRegistryState::Running ==> s is MarkRunning
            &&& next.state == PausedRegistryState::Resuming && r.state
                != PausedRegistryState::Resuming ==> s is Claim
            &&& next.state == PausedRegistryState::Publishing && r.state
                != PausedRegistryState::Publishing ==> s is BeginPause
            &&& next.state == PausedRegistryState::LocalOnly && r.state
                != PausedRegistryState::LocalOnly ==> s is MarkLocalOnly
        },
{
}

/// A begun pause is on its origin node under its own execution, and what the row had to restore
/// stays until the pause is complete; a first pause makes the row.
pub proof fn begun_pauses_are_on_their_origin(slot: Option<RowModel>, pause: Statement)
    requires
        pause is BeginPause,
        slot matches Some(r) ==> touches(pause, r),
    ensures
        after(pause, slot) matches Some(next) && next.state == PausedRegistryState::Publishing
            && next.origin == pause->BeginPause_origin && next.claimant is None && next.paused_at
            == pause->BeginPause_now && next.updated_at == pause->BeginPause_now && next.lease
            == Some(pause->BeginPause_until) && next.execution == Some(pause->BeginPause_execution)
            && (slot matches Some(r) ==> next.snapshot == r.snapshot && next.generation
            == r.generation + 1 && next.started == r.started && next.deadline == r.deadline) && (
        slot is None ==> next.snapshot is None && next.generation == 1 && next.started == Some(
            pause->BeginPause_now,
        ) && next.deadline is None && next.sandbox_id == pause->BeginPause_sandbox_id
            && next.cluster_id == pause->BeginPause_cluster_id),
        forall|s: Statement| !(s is BeginPause) ==> #[trigger] after(s, None) is None,
{
}

/// A pause that ends, either way, leaves no execution behind and keeps the generation, and only a
/// complete one has a new snapshot.
pub proof fn ended_pauses_run_nothing(r: RowModel, end: Statement)
    requires
        end is CompletePause || end is MarkLocalOnly || end is ReleaseClaim,
        touches(end, r),
    ensures
        after(end, Some(r)) matches Some(next) && next.execution is None && next.started is None
            && next.generation == r.generation && next.origin == r.origin && next.paused_at
            == r.paused_at && next.deadline == r.deadline && (end is CompletePause ==> next.state
            == PausedRegistryState::Paused && next.snapshot == Some(end->CompletePause_snapshot)
            && next.claimant == r.claimant && next.updated_at == end->CompletePause_now) && (
        end is MarkLocalOnly ==> next.state == PausedRegistryState::LocalOnly && next.snapshot
            == r.snapshot && next.claimant == r.claimant && next.updated_at
            == end->MarkLocalOnly_now) && (end is ReleaseClaim ==> next.state
            == PausedRegistryState::Paused && next.snapshot == r.snapshot && next.claimant is None
            && next.updated_at == end->ReleaseClaim_now),
{
}

} // verus!
