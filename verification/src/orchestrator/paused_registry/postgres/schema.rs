//! Idempotent paused-registry DDL guarded by the shared schema advisory lock.
//! Preflight refuses identity-axis violations instead of backfilling states
//! that could make a live sandbox claimable.

use crate::text::{same_text, signed_decimal, signed_decimal_text};
use vstd::prelude::*;
use vstd::string::*;

verus! {

/// Idempotent `paused_sandboxes` schema and indexes.
pub const SCHEMA_DDL: &'static str = "
CREATE TABLE IF NOT EXISTS paused_sandboxes (
    sandbox_id           UUID        PRIMARY KEY,
    cluster_id           UUID        NOT NULL,
    state                TEXT        NOT NULL,
    generation           BIGINT      NOT NULL,
    origin_node_id       TEXT        NOT NULL,
    snapshot_id          UUID,
    metadata             JSONB       NOT NULL,
    paused_at            TIMESTAMPTZ NOT NULL,
    updated_at            TIMESTAMPTZ NOT NULL,
    claimed_by_node_id   TEXT,
    lease_expires_at     TIMESTAMPTZ,
    sandbox_expires_at   TIMESTAMPTZ,
    execution_id         UUID,
    execution_started_at TIMESTAMPTZ
);
ALTER TABLE paused_sandboxes ADD COLUMN IF NOT EXISTS claimed_by_node_id   TEXT;
ALTER TABLE paused_sandboxes ADD COLUMN IF NOT EXISTS lease_expires_at     TIMESTAMPTZ;
ALTER TABLE paused_sandboxes ADD COLUMN IF NOT EXISTS sandbox_expires_at   TIMESTAMPTZ;
ALTER TABLE paused_sandboxes ADD COLUMN IF NOT EXISTS execution_id         UUID;
ALTER TABLE paused_sandboxes ADD COLUMN IF NOT EXISTS execution_started_at TIMESTAMPTZ;
ALTER TABLE paused_sandboxes DROP CONSTRAINT IF EXISTS paused_sandboxes_state_check;
ALTER TABLE paused_sandboxes ADD CONSTRAINT paused_sandboxes_state_check
    CHECK (state IN ('publishing', 'paused', 'resuming', 'local_only', 'running'));
ALTER TABLE paused_sandboxes DROP CONSTRAINT IF EXISTS paused_sandboxes_execution_check;
ALTER TABLE paused_sandboxes ADD  CONSTRAINT paused_sandboxes_execution_check
    CHECK ( (state IN ('running', 'publishing', 'resuming')) = (execution_id IS NOT NULL)
        AND (execution_id IS NULL) = (execution_started_at IS NULL) );
CREATE INDEX IF NOT EXISTS paused_sandboxes_origin_node_idx ON paused_sandboxes (origin_node_id);
CREATE INDEX IF NOT EXISTS paused_sandboxes_updated_at_idx ON paused_sandboxes (updated_at);
CREATE INDEX IF NOT EXISTS paused_sandboxes_reclaim_idx
    ON paused_sandboxes (cluster_id, sandbox_expires_at)
    WHERE state IN ('running', 'resuming') AND sandbox_expires_at IS NOT NULL;
CREATE INDEX IF NOT EXISTS paused_sandboxes_resuming_reclaim_idx
    ON paused_sandboxes (cluster_id)
    WHERE state = 'resuming';
";

/// Persisted restart-grace state shared by independent leaders.
pub const GRACE_STATE_DDL: &'static str = "
CREATE TABLE IF NOT EXISTS paused_registry_grace (
    cluster_id      UUID PRIMARY KEY,
    grace_until     TIMESTAMPTZ NOT NULL,
    downtime_secs   DOUBLE PRECISION NOT NULL,
    leases_extended BIGINT NOT NULL,
    entered_at      TIMESTAMPTZ NOT NULL DEFAULT now()
);
";

/// Counts the rows that violate the identity axis: the exact null-safe negation of
/// `paused_sandboxes_execution_check`.
pub const EXECUTION_AXIS_VIOLATIONS_SQL: &'static str = "SELECT count(*) FROM paused_sandboxes WHERE (state IN ('running', 'publishing', 'resuming')) IS DISTINCT FROM (execution_id IS NOT NULL) OR (execution_id IS NULL) IS DISTINCT FROM (execution_started_at IS NULL)";

/// Counts all rows.
pub const ANY_ROW_SQL: &'static str = "SELECT count(*) FROM paused_sandboxes";

/// The SQLSTATE of a table that does not exist.
pub const UNDEFINED_TABLE: &'static str = "42P01";

/// The SQLSTATE of a column that does not exist.
pub const UNDEFINED_COLUMN: &'static str = "42703";

/// What counting the violations came back with.
#[derive(Debug)]
pub enum ViolationsRead {
    /// So many rows.
    Count(i64),
    /// The database refused, with its SQLSTATE where it gave one.
    Refused(Option<String>),
    /// The database could not be asked.
    Failed,
}

/// What preflight does next.
#[derive(Debug, Clone, Copy, PartialEq, Eq, Structural)]
pub enum PreflightStep {
    /// Nothing stands in the way of the DDL.
    Apply,
    /// The table predates the identity columns: every row of it violates the axis.
    CountAllRows,
    /// So many rows violate the axis.
    Refuse { offending: i64 },
    /// The error stands.
    Fail,
}

/// What preflight does after counting the violations.
pub open spec fn step_after(read: ViolationsRead) -> PreflightStep {
    match read {
        ViolationsRead::Count(n) => if n == 0 {
            PreflightStep::Apply
        } else {
            PreflightStep::Refuse { offending: n }
        },
        ViolationsRead::Refused(Some(code)) => if code@ == UNDEFINED_TABLE@ {
            PreflightStep::Apply
        } else if code@ == UNDEFINED_COLUMN@ {
            PreflightStep::CountAllRows
        } else {
            PreflightStep::Fail
        },
        ViolationsRead::Refused(None) => PreflightStep::Fail,
        ViolationsRead::Failed => PreflightStep::Fail,
    }
}

/// Refuses rows that violate the identity axis before its constraint is applied. A missing table
/// is created by the DDL; a table without identity columns predates the constraint.
pub fn preflight(read: &ViolationsRead) -> (r: PreflightStep)
    ensures
        r == step_after(*read),
        r is Apply <==> (*read matches ViolationsRead::Count(n) && n == 0) || (
        *read matches ViolationsRead::Refused(Some(code)) && code@ == "42P01"@),
        r is CountAllRows <==> (*read matches ViolationsRead::Refused(Some(code)) && code@
            == "42703"@),
        r matches PreflightStep::Refuse { offending } ==> offending != 0 && (
        *read matches ViolationsRead::Count(n) && n == offending),
        *read is Failed ==> r is Fail,
{
    proof {
        reveal_strlit("42P01");
        reveal_strlit("42703");
        assert("42P01"@[2] == 'P' && "42703"@[2] == '7');
    }
    match read {
        ViolationsRead::Count(n) => counted(*n),
        ViolationsRead::Refused(Some(code)) => if same_text(code.as_str(), UNDEFINED_TABLE) {
            PreflightStep::Apply
        } else if same_text(code.as_str(), UNDEFINED_COLUMN) {
            PreflightStep::CountAllRows
        } else {
            PreflightStep::Fail
        },
        ViolationsRead::Refused(None) => PreflightStep::Fail,
        ViolationsRead::Failed => PreflightStep::Fail,
    }
}

/// What preflight does once the offending rows are counted.
pub fn counted(offending: i64) -> (r: PreflightStep)
    ensures
        r == step_after(ViolationsRead::Count(offending)),
        r == if offending == 0 {
            PreflightStep::Apply
        } else {
            PreflightStep::Refuse { offending }
        },
{
    if offending == 0 {
        PreflightStep::Apply
    } else {
        PreflightStep::Refuse { offending }
    }
}

/// Begins the refusal of a table with offending rows.
pub const REFUSAL_HEAD: &'static str = "paused_sandboxes has ";

/// Ends the refusal of a table with offending rows.
pub const REFUSAL_TAIL: &'static str = " row(s) that predate the identity axis (a live row with no execution_id, or a parked one carrying one). This build does not backfill automatically -- demoting a running row to paused would make it claimable, which is manufacturing a live duplicate. Handle it per runbook (dev/test: DROP TABLE paused_sandboxes, then restart this process)";

/// The refusal of a table with so many offending rows.
pub fn refusal_message(offending: i64) -> (r: String)
    ensures
        r@ == REFUSAL_HEAD@ + signed_decimal_text(offending as int) + REFUSAL_TAIL@,
{
    let mut out = REFUSAL_HEAD.to_owned();
    out.append(signed_decimal(offending).as_str());
    out.append(REFUSAL_TAIL);
    out
}

/// Why a migration failed: which error stands, and what it says of the step.
#[derive(Debug)]
pub struct MigrateFailure {
    /// Whether the error is that of applying the schema; otherwise it is that of the unlock.
    pub from_apply: bool,
    pub context: String,
}

/// The context of a failure whose unlock failed as well.
pub open spec fn both_failed(unlock_error: Seq<char>) -> Seq<char> {
    "ensure paused registry schema (releasing the schema lock also failed: "@ + unlock_error + ")"@
}

/// How a migration ends, from whether the schema was applied and why the unlock failed, where it
/// did. An error of applying the schema is never hidden by one of the unlock.
pub fn migrate(applied: bool, unlock_error: Option<&str>) -> (r: Result<(), MigrateFailure>)
    ensures
        match (applied, unlock_error) {
            (true, None) => r is Ok,
            (false, None) => r is Err && r->Err_0.from_apply && r->Err_0.context@
                == "ensure paused registry schema"@,
            (true, Some(_)) => r is Err && !r->Err_0.from_apply && r->Err_0.context@
                == "release the paused registry schema lock"@,
            (false, Some(e)) => r is Err && r->Err_0.from_apply && r->Err_0.context@
                == both_failed(e@),
        },
{
    match unlock_error {
        None => if applied {
            Ok(())
        } else {
            Err(
                MigrateFailure {
                    from_apply: true,
                    context: "ensure paused registry schema".to_owned(),
                },
            )
        },
        Some(e) => if applied {
            Err(
                MigrateFailure {
                    from_apply: false,
                    context: "release the paused registry schema lock".to_owned(),
                },
            )
        } else {
            let mut context =
                "ensure paused registry schema (releasing the schema lock also failed: ".to_owned();
            context.append(e);
            context.append(")");
            Err(MigrateFailure { from_apply: true, context })
        },
    }
}

/// Whether the connection is closed instead of going back to the pool: whenever the state of its
/// advisory lock is uncertain.
pub fn closes_connection(unlock_error: Option<&str>) -> (r: bool)
    ensures
        r == (unlock_error is Some),
{
    unlock_error.is_some()
}

/// The schema is applied only over a table without violations or where there is no table, whose
/// SQLSTATE is 42P01; a table without the identity columns, 42703, is counted whole; every counted
/// violation is a refusal of that many rows; and whatever else the database says stands as an error.
pub proof fn violations_are_never_applied_over(read: ViolationsRead)
    ensures
        step_after(read) is Apply <==> (read matches ViolationsRead::Count(n) && n == 0) || (
        read matches ViolationsRead::Refused(Some(code)) && code@ == "42P01"@),
        step_after(read) is CountAllRows <==> (read matches ViolationsRead::Refused(Some(code))
            && code@ == "42703"@),
        step_after(read) is Refuse <==> (read matches ViolationsRead::Count(n) && n != 0),
        step_after(read) matches PreflightStep::Refuse { offending } ==> (
        read matches ViolationsRead::Count(n) && n == offending),
{
    reveal_strlit("42P01");
    reveal_strlit("42703");
    assert("42P01"@[2] == 'P' && "42703"@[2] == '7');
}

/// A failure whose unlock failed as well says both, and quotes the unlock's error.
pub proof fn failed_unlocks_are_told(unlock_error: Seq<char>)
    ensures
        both_failed(unlock_error)
            == "ensure paused registry schema (releasing the schema lock also failed: "@
            + unlock_error + ")"@,
        UNDEFINED_TABLE@ == "42P01"@,
        UNDEFINED_COLUMN@ == "42703"@,
{
}

} // verus!
