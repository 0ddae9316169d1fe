//! Fenced paused-registry writes.
//! Each operation relies on PostgreSQL row locking and generation/execution
//! predicates, so replicas need no caller-side lock.

use super::super::types::{holder_of, invalid, state_named};
use super::super::types::{is_fenced, is_generation_conflict, is_invalid};
use super::super::types::{
    BeganPause, ConflictReason, DeadlineRenewalOutcome, MarkRunningOutcome, PausedRegistryError,
    PausedRegistryState, PausedSandboxEntry, ResumeClaim, SnapshotId,
};
use super::row::{decode_claim, entry_fault, entry_of, entry_row_of, ClaimRow};
use super::sql;
use super::statements::{after, is_live, is_parked, is_sound, text_of, touches};
use super::statements::{PauseRequest, RowModel, Statement};
use crate::ids::{display_uuid, parse_uuid, uuid_number, uuid_text, uuid_texts_tell_apart};
use crate::ids::SandboxId;
use crate::text::{matches_ignoring_case, same_text, texts_match, trim, trimmed};
use vstd::prelude::*;
use vstd::string::*;

verus! {

fn fenced(sandbox_id: &str) -> (r: PausedRegistryError)
    ensures
        is_fenced(r, sandbox_id@),
{
    PausedRegistryError::ExecutionFenced { sandbox_id: sandbox_id.to_owned() }
}

/// What a pause begins with: the record must be there and serializable, and the pause is fenced on
/// the execution inside it, the record being paused.
pub fn prepare_pause(cluster_id: u128, entry: &PausedSandboxEntry, serializable: bool) -> (r: Result<
    PauseRequest,
    PausedRegistryError,
>)
    ensures
        match (entry.metadata, serializable) {
            (None, _) => r is Err && is_invalid(
                r->Err_0,
                uuid_text(entry.sandbox_id.number),
                "sandbox metadata is missing"@,
            ),
            (Some(_), false) => r is Err && is_invalid(
                r->Err_0,
                uuid_text(entry.sandbox_id.number),
                "sandbox metadata is not serializable"@,
            ),
            (Some(metadata), true) => r == Ok::<_, PausedRegistryError>(
                PauseRequest {
                    sandbox_id: entry.sandbox_id,
                    cluster_id,
                    origin_node_id: entry.origin_node_id,
                    execution_id: metadata.execution_id,
                },
            ),
        },
{
    match &entry.metadata {
        None => Err(invalid(entry.sandbox_id.text().as_str(), "sandbox metadata is missing")),
        Some(metadata) => if serializable {
            Ok(
                PauseRequest {
                    sandbox_id: entry.sandbox_id,
                    cluster_id,
                    origin_node_id: entry.origin_node_id.clone(),
                    execution_id: metadata.execution_id,
                },
            )
        } else {
            Err(
                invalid(
                    entry.sandbox_id.text().as_str(),
                    "sandbox metadata is not serializable",
                ),
            )
        },
    }
}

/// The pause that a committed `BEGIN_PAUSE_SQL` began. `previous` is the snapshot column that it
/// handed back, where there was one: the number it spells, if it spells one.
pub fn read_begun(sandbox_id: &str, generation: i64, previous: Option<Option<u128>>) -> (r: Result<
    BeganPause,
    PausedRegistryError,
>)
    ensures
        match previous {
            None => r == Ok::<_, PausedRegistryError>(
                BeganPause { generation, previous_snapshot_id: None },
            ),
            Some(Some(number)) => r == Ok::<_, PausedRegistryError>(
                BeganPause { generation, previous_snapshot_id: Some(SnapshotId { number }) },
            ),
            Some(None) => r is Err && is_invalid(
                r->Err_0,
                sandbox_id@,
                "snapshot id is not a uuid"@,
            ),
        },
{
    match previous {
        None => Ok(BeganPause { generation, previous_snapshot_id: None }),
        Some(Some(number)) => Ok(
            BeganPause { generation, previous_snapshot_id: Some(SnapshotId { number }) },
        ),
        Some(None) => Err(invalid(sandbox_id, "snapshot id is not a uuid")),
    }
}

/// What a snapshot column spells, where it is there.
pub open spec fn snapshot_number(column: Option<String>) -> Option<Option<u128>> {
    match column {
        None => None,
        Some(text) => Some(uuid_number(text@)),
    }
}

/// The pause that a committed `BEGIN_PAUSE_SQL` began.
pub fn begin_pause(sandbox_id: SandboxId, generation: i64, previous_snapshot_id: Option<String>) -> (r:
    Result<BeganPause, PausedRegistryError>)
    ensures
        previous_snapshot_id is None ==> r == Ok::<_, PausedRegistryError>(
            BeganPause { generation, previous_snapshot_id: None },
        ),
        previous_snapshot_id matches Some(text) ==> (r is Ok <==> uuid_number(text@) is Some) && (
        r matches Ok(begun) ==> begun.generation == generation && (
        begun.previous_snapshot_id matches Some(id) && uuid_number(text@) == Some(id.number))),
        match snapshot_number(previous_snapshot_id) {
            None => r == Ok::<_, PausedRegistryError>(
                BeganPause { generation, previous_snapshot_id: None },
            ),
            Some(Some(number)) => r == Ok::<_, PausedRegistryError>(
                BeganPause { generation, previous_snapshot_id: Some(SnapshotId { number }) },
            ),
            Some(None) => r is Err && is_invalid(
                r->Err_0,
                uuid_text(sandbox_id.number),
                "snapshot id is not a uuid"@,
            ),
        },
{
    let previous: Option<Option<u128>> = match previous_snapshot_id {
        None => None,
        Some(raw) => Some(parse_uuid(raw.as_str())),
    };
    read_begun(sandbox_id.text().as_str(), generation, previous)
}

/// Why a pause was refused: `owner` is the cluster column of the sandbox's row in any cluster,
/// where there is one.
///
/// A row that has gone is fenced like one of another execution, since retrying could resurrect it;
/// a row of another cluster is reported instead of rewritten.
pub fn classify_refused(
    sandbox_id: &str,
    sandbox_id_parses: bool,
    cluster_id: &str,
    owner: Option<&str>,
) -> (r: PausedRegistryError)
    ensures
        if !sandbox_id_parses {
            is_invalid(r, sandbox_id@, "sandbox id is not a uuid"@)
        } else {
            match owner {
                Some(text) => if texts_match(text@, cluster_id@) {
                    is_fenced(r, sandbox_id@)
                } else {
                    is_invalid(
                        r,
                        sandbox_id@,
                        "registry already holds this sandbox for a different cluster"@,
                    )
                },
                None => is_fenced(r, sandbox_id@),
            }
        },
{
    if !sandbox_id_parses {
        return invalid(sandbox_id, "sandbox id is not a uuid");
    }
    match owner {
        None => fenced(sandbox_id),
        Some(text) => if matches_ignoring_case(text, cluster_id) {
            fenced(sandbox_id)
        } else {
            invalid(sandbox_id, "registry already holds this sandbox for a different cluster")
        },
    }
}

/// Why a pause was refused; see [`classify_refused`].
pub fn classify_refused_pause(cluster_id: u128, sandbox_id: &str, owner: Option<&str>) -> (r:
    PausedRegistryError)
    ensures
        if uuid_number(sandbox_id@) is None {
            is_invalid(r, sandbox_id@, "sandbox id is not a uuid"@)
        } else {
            match owner {
                Some(text) => if texts_match(text@, uuid_text(cluster_id)) {
                    is_fenced(r, sandbox_id@)
                } else {
                    is_invalid(
                        r,
                        sandbox_id@,
                        "registry already holds this sandbox for a different cluster"@,
                    )
                },
                None => is_fenced(r, sandbox_id@),
            }
        },
{
    let parses: bool = parse_uuid(sandbox_id).is_some();
    classify_refused(sandbox_id, parses, display_uuid(cluster_id).as_str(), owner)
}

/// A generation-fenced write: it conflicts where it affected no row.
fn fenced_by_generation(sandbox_id: SandboxId, generation: i64, rows_affected: u64) -> (r: Result<
    (),
    PausedRegistryError,
>)
    ensures
        match r {
            Ok(_) => rows_affected > 0,
            Err(e) => rows_affected == 0 && is_generation_conflict(
                e,
                uuid_text(sandbox_id.number),
                generation,
            ),
        },
{
    if rows_affected == 0 {
        Err(
            PausedRegistryError::GenerationConflict {
                sandbox_id: sandbox_id.text(),
                expected: generation,
            },
        )
    } else {
        Ok(())
    }
}

/// Completes a publishing pause: it conflicts where `COMPLETE_PAUSE_SQL` affected no row.
pub fn complete_pause(sandbox_id: SandboxId, generation: i64, rows_affected: u64) -> (r: Result<
    (),
    PausedRegistryError,
>)
    ensures
        match r {
            Ok(_) => rows_affected > 0,
            Err(e) => rows_affected == 0 && is_generation_conflict(
                e,
                uuid_text(sandbox_id.number),
                generation,
            ),
        },
{
    fenced_by_generation(sandbox_id, generation, rows_affected)
}

/// Marks a publishing pause local-only: it conflicts where `MARK_LOCAL_ONLY_SQL` affected no row.
pub fn mark_local_only(sandbox_id: SandboxId, generation: i64, rows_affected: u64) -> (r: Result<
    (),
    PausedRegistryError,
>)
    ensures
        match r {
            Ok(_) => rows_affected > 0,
            Err(e) => rows_affected == 0 && is_generation_conflict(
                e,
                uuid_text(sandbox_id.number),
                generation,
            ),
        },
{
    fenced_by_generation(sandbox_id, generation, rows_affected)
}

/// The statement of a claim, optionally restricted to durable paused rows.
pub fn claim_sql(durable_only: bool) -> (r: String)
    ensures
        durable_only ==> r@ == sql::CLAIM_DURABLE@ + "state = 'paused'
    RETURNING "@ + sql::ENTRY_COLUMNS@ + sql::CLAIM_RESULT@,
        !durable_only ==> r@ == sql::CLAIM_DURABLE@ + "(state = 'paused'
         OR (state IN ('publishing', 'local_only') AND "@ + sql::LEASE_EXPIRED@ + "))
    RETURNING "@ + sql::ENTRY_COLUMNS@ + sql::CLAIM_RESULT@,
{
    if durable_only {
        sql::claim_for_resume_durable_only_sql()
    } else {
        sql::claim_for_resume_sql()
    }
}

/// What a claim came to so far.
#[derive(Debug)]
pub enum ClaimStep {
    /// The answer.
    Answer(ResumeClaim),
    /// Nothing was claimed: the row is read, and
    /// [`claim_for_resume_not_claimed`] gives the answer.
    ReadRow,
}

/// The answer to a claim, where its statement claimed a row.
pub fn claim_for_resume(row: Option<ClaimRow>) -> (r: Result<ClaimStep, PausedRegistryError>)
    ensures
        match row {
            None => r == Ok::<_, PausedRegistryError>(ClaimStep::ReadRow),
            Some(row) => match r {
                Ok(step) => {
                    &&& state_named(row.previous_state@) is Some
                    &&& entry_fault(entry_row_of(row)) is None
                    &&& step == ClaimStep::Answer(
                        ResumeClaim::Claimed {
                            entry: entry_of(entry_row_of(row)),
                            previous_state: state_named(row.previous_state@)->0,
                        },
                    )
                },
                Err(e) => if state_named(row.previous_state@) is None {
                    is_invalid(
                        e,
                        row.sandbox_id@,
                        "unknown previous state '"@ + row.previous_state@ + "'"@,
                    )
                } else {
                    entry_fault(entry_row_of(row)) is Some && is_invalid(
                        e,
                        row.sandbox_id@,
                        entry_fault(entry_row_of(row))->0,
                    )
                },
            },
        },
{
    match row {
        None => Ok(ClaimStep::ReadRow),
        Some(row) => match decode_claim(row) {
            Ok((entry, previous_state)) => Ok(
                ClaimStep::Answer(ResumeClaim::Claimed { entry, previous_state }),
            ),
            Err(e) => Err(e),
        },
    }
}

/// The answer to a claim that claimed nothing, from the row as it is read afterwards.
pub open spec fn refusal_of(current: Option<PausedSandboxEntry>) -> ResumeClaim {
    match current {
        None => ResumeClaim::NotFound,
        Some(entry) => if is_parked(entry.state) {
            ResumeClaim::NotReady { origin_node_id: entry.origin_node_id }
        } else if is_live(entry.state) {
            ResumeClaim::Conflict {
                origin_node_id: holder_of(entry.origin_node_id, entry.claimed_by_node_id),
                reason: ConflictReason::LiveElsewhere,
            }
        } else {
            ResumeClaim::Conflict {
                origin_node_id: entry.origin_node_id,
                reason: ConflictReason::ClaimLost,
            }
        },
    }
}

/// The answer to a claim that claimed nothing, from the row as it is read afterwards.
pub fn claim_for_resume_not_claimed(current: Option<PausedSandboxEntry>) -> (r: ResumeClaim)
    ensures
        r == refusal_of(current),
        current is None ==> r is NotFound,
        current matches Some(entry) ==> match entry.state {
            PausedRegistryState::Publishing | PausedRegistryState::LocalOnly => {
                r == (ResumeClaim::NotReady { origin_node_id: entry.origin_node_id })
            },
            PausedRegistryState::Resuming | PausedRegistryState::Running => {
                r == (ResumeClaim::Conflict {
                    origin_node_id: match entry.claimed_by_node_id {
                        Some(node) => node,
                        None => entry.origin_node_id,
                    },
                    reason: ConflictReason::LiveElsewhere,
                })
            },
            PausedRegistryState::Paused => {
                r == (ResumeClaim::Conflict {
                    origin_node_id: entry.origin_node_id,
                    reason: ConflictReason::ClaimLost,
                })
            },
        },
{
    match current {
        None => ResumeClaim::NotFound,
        Some(entry) => match entry.state {
            PausedRegistryState::Publishing | PausedRegistryState::LocalOnly => {
                ResumeClaim::NotReady { origin_node_id: entry.origin_node_id }
            },
            PausedRegistryState::Resuming | PausedRegistryState::Running => {
                let origin_node_id = match entry.claimed_by_node_id {
                    Some(node) => node,
                    None => entry.origin_node_id,
                };
                ResumeClaim::Conflict { origin_node_id, reason: ConflictReason::LiveElsewhere }
            },
            PausedRegistryState::Paused => ResumeClaim::Conflict {
                origin_node_id: entry.origin_node_id,
                reason: ConflictReason::ClaimLost,
            },
        },
    }
}

/// Releases a resuming claim; a non-match is successful `false`.
pub fn release_claim(rows_affected: u64) -> (r: bool)
    ensures
        r == (rows_affected > 0),
{
    rows_affected > 0
}

/// The node that holds a started sandbox: an empty holder means that the claimant is also the
/// physical holder.
pub open spec fn physical_holder(node_id: Seq<char>, holder_node_id: Seq<char>) -> Seq<char> {
    if trimmed(holder_node_id).len() == 0 {
        node_id
    } else {
        holder_node_id
    }
}

/// The node that holds a started sandbox.
pub fn running_holder<'a>(node_id: &'a str, holder_node_id: &'a str) -> (r: &'a str)
    ensures
        r@ == physical_holder(node_id@, holder_node_id@),
        trimmed(holder_node_id@).len() == 0 ==> r@ == node_id@,
        trimmed(holder_node_id@).len() > 0 ==> r@ == holder_node_id@,
{
    if trim(holder_node_id).as_str().is_empty() {
        node_id
    } else {
        holder_node_id
    }
}

/// Whether a row that a start did not touch is the starter's, under another execution: resuming
/// and idempotent-running starts fence on different identities.
pub open spec fn start_is_stale(
    entry: PausedSandboxEntry,
    node_id: Seq<char>,
    holder: Seq<char>,
) -> bool {
    (entry.state is Resuming && text_of(entry.claimed_by_node_id) == Some(node_id)) || (
    entry.state is Running && entry.origin_node_id@ == holder)
}

/// What a start came to: `rows_affected` by `MARK_RUNNING_SQL`, and the row as it is read in the
/// same transaction where there were none.
pub fn mark_running(
    sandbox_id: SandboxId,
    node_id: &str,
    holder: &str,
    rows_affected: u64,
    current: Option<&PausedSandboxEntry>,
) -> (r: Result<MarkRunningOutcome, PausedRegistryError>)
    ensures
        rows_affected > 0 ==> r == Ok::<_, PausedRegistryError>(MarkRunningOutcome::Adopted),
        rows_affected == 0 ==> match current {
            None => r == Ok::<_, PausedRegistryError>(MarkRunningOutcome::Untracked),
            Some(entry) => if start_is_stale(*entry, node_id@, holder@) {
                r is Err && is_fenced(r->Err_0, uuid_text(sandbox_id.number))
            } else {
                r == Ok::<_, PausedRegistryError>(MarkRunningOutcome::HeldElsewhere)
            },
        },
        rows_affected == 0 && current is Some ==> (r is Err <==> match current->0.state {
            PausedRegistryState::Resuming => {
                current->0.claimed_by_node_id matches Some(node) && node@ == node_id@
            },
            PausedRegistryState::Running => current->0.origin_node_id@ == holder@,
            _ => false,
        }),
{
    if rows_affected > 0 {
        return Ok(MarkRunningOutcome::Adopted);
    }
    match current {
        None => Ok(MarkRunningOutcome::Untracked),
        Some(entry) => {
            let claimed_here: bool = match &entry.claimed_by_node_id {
                Some(node) => same_text(node.as_str(), node_id),
                None => false,
            };
            let stale: bool = (entry.state == PausedRegistryState::Resuming && claimed_here) || (
            entry.state == PausedRegistryState::Running && same_text(
                entry.origin_node_id.as_str(),
                holder,
            ));
            if stale {
                Err(fenced(sandbox_id.text().as_str()))
            } else {
                Ok(MarkRunningOutcome::HeldElsewhere)
            }
        },
    }
}

/// What a deadline renewal came to: `rows_affected` by `RENEW_SANDBOX_DEADLINE_SQL`, and whether a
/// row is read in the same transaction where there were none.
pub fn renew_sandbox_deadline(rows_affected: u64, row_exists: bool) -> (r: DeadlineRenewalOutcome)
    ensures
        r == if rows_affected > 0 {
            DeadlineRenewalOutcome::Renewed
        } else if row_exists {
            DeadlineRenewalOutcome::Superseded
        } else {
            DeadlineRenewalOutcome::NotTracked
        },
{
    if rows_affected > 0 {
        DeadlineRenewalOutcome::Renewed
    } else if row_exists {
        DeadlineRenewalOutcome::Superseded
    } else {
        DeadlineRenewalOutcome::NotTracked
    }
}

/// Removes one generation; a non-match is successful `false`.
pub fn remove(rows_affected: u64) -> (r: bool)
    ensures
        r == (rows_affected > 0),
{
    rows_affected > 0
}

// ---- laws --------------------------------------------------------------------

/// `entry` is what a read of the row `r` gives.
pub open spec fn reads_row(entry: PausedSandboxEntry, r: RowModel) -> bool {
    &&& entry.state == r.state
    &&& entry.origin_node_id@ == r.origin
    &&& text_of(entry.claimed_by_node_id) == r.claimant
    &&& entry.execution_id == r.execution
}

/// A refused pause is told which of the two reasons it has: on a row of its own cluster, another
/// incarnation holds the sandbox and the pause is fenced; on a row of another cluster it is not.
/// The row is unchanged either way.
pub proof fn refused_pauses_are_told_apart(r: RowModel, pause: Statement)
    requires
        pause is BeginPause,
        !touches(pause, r),
    ensures
        after(pause, Some(r)) == Some(r),
        texts_match(uuid_text(r.cluster_id), uuid_text(pause->BeginPause_cluster_id))
            <==> r.cluster_id == pause->BeginPause_cluster_id,
        r.cluster_id == pause->BeginPause_cluster_id ==> r.execution != Some(
            pause->BeginPause_execution,
        ),
{
    uuid_texts_tell_apart(r.cluster_id, pause->BeginPause_cluster_id);
}

/// A start is told that it is fenced only where its execution really is not the row's: on the row
/// that refused it, a stale start has another execution.
pub proof fn fenced_starts_are_superseded(entry: PausedSandboxEntry, r: RowModel, start: Statement)
    requires
        reads_row(entry, r),
        start is MarkRunning,
        start->MarkRunning_cluster_id == r.cluster_id,
        !touches(start, r),
        start_is_stale(entry, start->MarkRunning_claimant, start->MarkRunning_holder),
    ensures
        r.execution != Some(start->MarkRunning_execution),
{
}

/// A start that is told the sandbox is held elsewhere met a row that neither its claimant claims
/// nor its holder runs.
pub proof fn starts_held_elsewhere_hold_nothing(
    entry: PausedSandboxEntry,
    r: RowModel,
    start: Statement,
)
    requires
        is_sound(r),
        reads_row(entry, r),
        start is MarkRunning,
        start->MarkRunning_cluster_id == r.cluster_id,
        !touches(start, r),
        !start_is_stale(entry, start->MarkRunning_claimant, start->MarkRunning_holder),
    ensures
        r.claimant != Some(start->MarkRunning_claimant),
        r.state is Running ==> r.origin != start->MarkRunning_holder,
        !(r.state is Running) && !(r.state is Resuming) ==> r.origin != start->MarkRunning_claimant,
{
}

/// A claim that a row refused is told so by the row's state: a live row is a conflict, a parked
/// one is not ready, and no row that refused it is paused. The row is unchanged.
pub proof fn refused_claims_are_told_why(entry: PausedSandboxEntry, r: RowModel, claim: Statement)
    requires
        is_sound(r),
        reads_row(entry, r),
        claim is Claim,
        claim->Claim_cluster_id == r.cluster_id,
        !touches(claim, r),
    ensures
        after(claim, Some(r)) == Some(r),
        is_live(r.state) ==> refusal_of(Some(entry)) == (ResumeClaim::Conflict {
            origin_node_id: holder_of(entry.origin_node_id, entry.claimed_by_node_id),
            reason: ConflictReason::LiveElsewhere,
        }),
        is_parked(r.state) ==> refusal_of(Some(entry)) == (ResumeClaim::NotReady {
            origin_node_id: entry.origin_node_id,
        }),
        is_live(r.state) || is_parked(r.state),
{
}

/// A claim that claimed nothing is told by the row it met what to do: nothing there is to be found,
/// a pause still on its node is waited for at that node, what is live belongs to its claimant or
/// else its origin, and a paused row was lost to another claim and is free again.
pub proof fn refusals_name_the_row(entry: PausedSandboxEntry)
    ensures
        refusal_of(None) is NotFound,
        entry.state is Publishing || entry.state is LocalOnly ==> (refusal_of(
            Some(entry),
        ) matches ResumeClaim::NotReady { origin_node_id } && origin_node_id
            == entry.origin_node_id),
        entry.state is Running || entry.state is Resuming ==> (refusal_of(
            Some(entry),
        ) matches ResumeClaim::Conflict { origin_node_id, reason } && reason is LiveElsewhere && (
        entry.claimed_by_node_id matches Some(node) ==> origin_node_id == node) && (
        entry.claimed_by_node_id is None ==> origin_node_id == entry.origin_node_id)),
        entry.state is Paused ==> (refusal_of(Some(entry)) matches ResumeClaim::Conflict {
            origin_node_id,
            reason,
        } && reason is ClaimLost && origin_node_id == entry.origin_node_id),
{
}

/// A start that touched nothing is stale exactly where the row is the starter's under another
/// execution: its claimant resumes it, or its holder runs it. A parked or paused row fences none.
pub proof fn stale_starts_met_their_own_row(
    entry: PausedSandboxEntry,
    node_id: Seq<char>,
    holder: Seq<char>,
)
    ensures
        start_is_stale(entry, node_id, holder) ==> entry.state is Resuming || entry.state is Running,
        entry.state is Resuming ==> (start_is_stale(entry, node_id, holder) <==> (
        entry.claimed_by_node_id matches Some(node) && node@ == node_id)),
        entry.state is Running ==> (start_is_stale(entry, node_id, holder) <==> entry.origin_node_id@
            == holder),
{
}

/// A start without a holder of its own is held by the node that asked for it.
pub proof fn blank_holders_are_the_claimant(node_id: Seq<char>, holder_node_id: Seq<char>)
    ensures
        trimmed(holder_node_id).len() == 0 ==> physical_holder(node_id, holder_node_id) == node_id,
        trimmed(holder_node_id).len() > 0 ==> physical_holder(node_id, holder_node_id)
            == holder_node_id,
{
}

} // verus!
