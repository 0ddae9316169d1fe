//! Cluster-singleton reconcile pass.
//! Grace entry and roster-free metrics stay leader-elected; heartbeat-derived
//! lease renewal runs per replica in [`replica_renewal`](super::replica_renewal).
//! Metrics include parked and live rows in one at-risk total.

use super::super::types::PausedRegistryState;
use super::row::{lease_end, RegistryRow};
use super::statements::{deadline_passed, is_live, is_parked, lease_lapsed, touches, Statement};
use crate::text::decimal;
use crate::text::decimal_text;
use crate::time::{Span, Timestamp, NANOS_PER_SEC};
use vstd::prelude::*;
use vstd::string::*;

verus! {

/// How close to lease expiry a parked row is at risk, in seconds.
pub const LEASE_WARN_WINDOW_SECS: u64 = 30;

/// How long one pass may take, in seconds.
pub const TICK_BUDGET_SECS: u64 = 25;

/// Reconcile counters derived from one registry snapshot.
#[derive(Debug, Clone, Copy, PartialEq, Eq, Structural)]
pub struct ReconcileOutcome {
    /// Parked rows without a durable snapshot.
    pub stranded_rows: u64,
    /// Parked rows close to lease expiry.
    pub parked_lease_expiring: u64,
    /// Live rows with lapsed leases.
    pub live_lease_lapsed: u64,
    /// Running rows past their user deadline while the lease remains live.
    pub live_deadline_passed: u64,
    /// Rows the next reclaim pass can act on.
    pub reclaimable_now: u64,
}

impl Default for ReconcileOutcome {
    fn default() -> (r: ReconcileOutcome)
        ensures
            r == (ReconcileOutcome {
                stranded_rows: 0,
                parked_lease_expiring: 0,
                live_lease_lapsed: 0,
                live_deadline_passed: 0,
                reclaimable_now: 0,
            }),
    {
        ReconcileOutcome {
            stranded_rows: 0,
            parked_lease_expiring: 0,
            live_lease_lapsed: 0,
            live_deadline_passed: 0,
            reclaimable_now: 0,
        }
    }
}

impl ReconcileOutcome {
    /// Returns the total parked and live rows showing neglect.
    pub fn at_risk_rows(&self) -> (r: u64)
        requires
            self.stranded_rows + self.parked_lease_expiring + self.live_lease_lapsed
                + self.live_deadline_passed <= u64::MAX,
        ensures
            r == self.stranded_rows + self.parked_lease_expiring + self.live_lease_lapsed
                + self.live_deadline_passed,
    {
        self.stranded_rows + self.parked_lease_expiring + self.live_lease_lapsed
            + self.live_deadline_passed
    }
}

/// A parked row without a durable snapshot.
pub open spec fn is_stranded(r: RegistryRow) -> bool {
    is_parked(r.state) && r.snapshot_id is None
}

/// A parked row with a snapshot whose lease ends within the warning window.
pub open spec fn is_expiring(r: RegistryRow, now: int) -> bool {
    is_parked(r.state) && r.snapshot_id is Some && lease_end(r.lease_expires_at, r.updated_at) < now
        + LEASE_WARN_WINDOW_SECS as int * NANOS_PER_SEC
}

/// A live row with a lapsed lease.
pub open spec fn is_lapsed(r: RegistryRow, now: int) -> bool {
    is_live(r.state) && lease_lapsed(r@, now)
}

/// A running row past its deadline while its lease lasts.
pub open spec fn is_overdue(r: RegistryRow, now: int) -> bool {
    r.state is Running && !lease_lapsed(r@, now) && deadline_passed(r@, now)
}

/// A live row with a lapsed lease that is resuming or past its deadline.
pub open spec fn is_reclaimable(r: RegistryRow, now: int) -> bool {
    is_lapsed(r, now) && (r.state is Resuming || deadline_passed(r@, now))
}

/// How many of the first `k` rows are stranded.
pub open spec fn stranded_count(rows: Seq<RegistryRow>, k: int) -> nat
    decreases k,
{
    if k <= 0 {
        0
    } else {
        stranded_count(rows, k - 1) + if is_stranded(rows[k - 1]) {
            1nat
        } else {
            0nat
        }
    }
}

/// How many of the first `k` rows are close to lease expiry.
pub open spec fn expiring_count(rows: Seq<RegistryRow>, now: int, k: int) -> nat
    decreases k,
{
    if k <= 0 {
        0
    } else {
        expiring_count(rows, now, k - 1) + if is_expiring(rows[k - 1], now) {
            1nat
        } else {
            0nat
        }
    }
}

/// How many of the first `k` rows are live with a lapsed lease.
pub open spec fn lapsed_count(rows: Seq<RegistryRow>, now: int, k: int) -> nat
    decreases k,
{
    if k <= 0 {
        0
    } else {
        lapsed_count(rows, now, k - 1) + if is_lapsed(rows[k - 1], now) {
            1nat
        } else {
            0nat
        }
    }
}

/// How many of the first `k` rows run past their deadline while their lease lasts.
pub open spec fn overdue_count(rows: Seq<RegistryRow>, now: int, k: int) -> nat
    decreases k,
{
    if k <= 0 {
        0
    } else {
        overdue_count(rows, now, k - 1) + if is_overdue(rows[k - 1], now) {
            1nat
        } else {
            0nat
        }
    }
}

/// How many of the first `k` rows the next reclaim pass can act on.
pub open spec fn reclaimable_count(rows: Seq<RegistryRow>, now: int, k: int) -> nat
    decreases k,
{
    if k <= 0 {
        0
    } else {
        reclaimable_count(rows, now, k - 1) + if is_reclaimable(rows[k - 1], now) {
            1nat
        } else {
            0nat
        }
    }
}

/// Computes reconcile counters from already-read rows.
pub fn compute_reconcile(rows: &Vec<RegistryRow>, now: Timestamp) -> (r: ReconcileOutcome)
    ensures
        r.stranded_rows == stranded_count(rows@, rows@.len() as int),
        r.parked_lease_expiring == expiring_count(rows@, now@, rows@.len() as int),
        r.live_lease_lapsed == lapsed_count(rows@, now@, rows@.len() as int),
        r.live_deadline_passed == overdue_count(rows@, now@, rows@.len() as int),
        r.reclaimable_now == reclaimable_count(rows@, now@, rows@.len() as int),
        r.stranded_rows + r.parked_lease_expiring + r.live_lease_lapsed + r.live_deadline_passed
            <= rows@.len(),
{
    let mut stranded_rows: u64 = 0;
    let mut parked_lease_expiring: u64 = 0;
    let mut live_lease_lapsed: u64 = 0;
    let mut live_deadline_passed: u64 = 0;
    let mut reclaimable_now: u64 = 0;
    let window = Span::from_secs(LEASE_WARN_WINDOW_SECS);
    let warn_before: i128 = now.total_nanos() + window.total_nanos();
    let mut i: usize = 0;
    while i < rows.len()
        invariant
            i <= rows@.len(),
            warn_before == now@ + LEASE_WARN_WINDOW_SECS as int * NANOS_PER_SEC,
            stranded_rows == stranded_count(rows@, i as int),
            parked_lease_expiring == expiring_count(rows@, now@, i as int),
            live_lease_lapsed == lapsed_count(rows@, now@, i as int),
            live_deadline_passed == overdue_count(rows@, now@, i as int),
            reclaimable_now == reclaimable_count(rows@, now@, i as int),
            stranded_rows + parked_lease_expiring + live_lease_lapsed + live_deadline_passed <= i,
            reclaimable_now <= live_lease_lapsed,
        decreases rows@.len() - i,
    {
        let row = &rows[i];
        match row.state {
            PausedRegistryState::Publishing | PausedRegistryState::LocalOnly => {
                if row.snapshot_id.is_none() {
                    stranded_rows = stranded_rows + 1;
                } else {
                    let ends = match row.lease_expires_at {
                        Some(at) => at,
                        None => row.updated_at,
                    };
                    if ends.total_nanos() < warn_before {
                        parked_lease_expiring = parked_lease_expiring + 1;
                    }
                }
            },
            PausedRegistryState::Running | PausedRegistryState::Resuming => {
                let overdue: bool = match row.sandbox_expires_at {
                    Some(at) => at.before(now),
                    None => false,
                };
                if row.lease_expired(now) {
                    live_lease_lapsed = live_lease_lapsed + 1;
                    if row.state == PausedRegistryState::Resuming || overdue {
                        reclaimable_now = reclaimable_now + 1;
                    }
                } else if row.state == PausedRegistryState::Running && overdue {
                    live_deadline_passed = live_deadline_passed + 1;
                }
            },
            PausedRegistryState::Paused => {},
        }
        i = i + 1;
    }
    ReconcileOutcome {
        stranded_rows,
        parked_lease_expiring,
        live_lease_lapsed,
        live_deadline_passed,
        reclaimable_now,
    }
}

/// How many rows are in each state. Every state has its count, so zero and missing remain
/// distinct.
#[derive(Debug, Clone, Copy, PartialEq, Eq, Structural)]
pub struct StateCounts {
    pub publishing: u64,
    pub paused: u64,
    pub resuming: u64,
    pub local_only: u64,
    pub running: u64,
}

/// How many of the first `k` rows are in the state.
pub open spec fn state_count(rows: Seq<RegistryRow>, state: PausedRegistryState, k: int) -> nat
    decreases k,
{
    if k <= 0 {
        0
    } else {
        state_count(rows, state, k - 1) + if rows[k - 1].state == state {
            1nat
        } else {
            0nat
        }
    }
}

/// Counts the rows in each state.
pub fn rows_by_state(rows: &Vec<RegistryRow>) -> (r: StateCounts)
    ensures
        r.publishing == state_count(rows@, PausedRegistryState::Publishing, rows@.len() as int),
        r.paused == state_count(rows@, PausedRegistryState::Paused, rows@.len() as int),
        r.resuming == state_count(rows@, PausedRegistryState::Resuming, rows@.len() as int),
        r.local_only == state_count(rows@, PausedRegistryState::LocalOnly, rows@.len() as int),
        r.running == state_count(rows@, PausedRegistryState::Running, rows@.len() as int),
        r.publishing + r.paused + r.resuming + r.local_only + r.running == rows@.len(),
{
    let mut counts = StateCounts {
        publishing: 0,
        paused: 0,
        resuming: 0,
        local_only: 0,
        running: 0,
    };
    let mut i: usize = 0;
    while i < rows.len()
        invariant
            i <= rows@.len(),
            counts.publishing == state_count(rows@, PausedRegistryState::Publishing, i as int),
            counts.paused == state_count(rows@, PausedRegistryState::Paused, i as int),
            counts.resuming == state_count(rows@, PausedRegistryState::Resuming, i as int),
            counts.local_only == state_count(rows@, PausedRegistryState::LocalOnly, i as int),
            counts.running == state_count(rows@, PausedRegistryState::Running, i as int),
            counts.publishing + counts.paused + counts.resuming + counts.local_only
                + counts.running == i,
        decreases rows@.len() - i,
    {
        match rows[i].state {
            PausedRegistryState::Publishing => {
                counts.publishing = counts.publishing + 1;
            },
            PausedRegistryState::Paused => {
                counts.paused = counts.paused + 1;
            },
            PausedRegistryState::Resuming => {
                counts.resuming = counts.resuming + 1;
            },
            PausedRegistryState::LocalOnly => {
                counts.local_only = counts.local_only + 1;
            },
            PausedRegistryState::Running => {
                counts.running = counts.running + 1;
            },
        }
        i = i + 1;
    }
    counts
}

/// Bounds the statements of a leader session on the server. Cancelling a client on the pinned
/// advisory-lock connection could leave its protocol desynchronized.
pub fn statement_timeout_sql() -> (r: String)
    ensures
        r@ == "SET statement_timeout = '"@ + decimal_text(TICK_BUDGET_SECS as nat) + "s'"@,
{
    let mut out = String::new();
    out.append("SET statement_timeout = '");
    out.append(decimal(TICK_BUDGET_SECS).as_str());
    out.append("s'");
    proof {
        assert(out@ =~= "SET statement_timeout = '"@ + decimal_text(TICK_BUDGET_SECS as nat)
            + "s'"@);
    }
    out
}

/// What a pass counts as reclaimable is what the reclaim statements take at that instant: every
/// row they touch is counted, and every counted row with a snapshot, or past its deadline, is
/// touched.
pub proof fn reclaimable_is_what_reclaim_takes(r: RegistryRow, now: int)
    ensures
        ({
            let c = r.cluster_id;
            let taken = touches(Statement::ReclaimRunning { cluster_id: c, now }, r@) || touches(
                Statement::ReclaimResuming { cluster_id: c, now },
                r@,
            ) || touches(Statement::ReclaimDiscarded { cluster_id: c, now }, r@);
            &&& taken ==> is_reclaimable(r, now)
            &&& is_reclaimable(r, now) && (r.snapshot_id is Some || deadline_passed(r@, now)) ==> taken
        }),
{
}

/// A row is at risk for one reason only.
pub proof fn risks_are_exclusive(r: RegistryRow, now: int)
    ensures
        !(is_stranded(r) && (is_expiring(r, now) || is_lapsed(r, now) || is_overdue(r, now))),
        !(is_expiring(r, now) && (is_lapsed(r, now) || is_overdue(r, now))),
        !(is_lapsed(r, now) && is_overdue(r, now)),
        r.state is Paused ==> !is_stranded(r) && !is_expiring(r, now) && !is_lapsed(r, now)
            && !is_overdue(r, now),
{
}

proof fn counts_look_no_further(
    rows: Seq<RegistryRow>,
    row: RegistryRow,
    state: PausedRegistryState,
    now: int,
    k: int,
)
    requires
        0 <= k <= rows.len(),
    ensures
        stranded_count(rows.push(row), k) == stranded_count(rows, k),
        expiring_count(rows.push(row), now, k) == expiring_count(rows, now, k),
        lapsed_count(rows.push(row), now, k) == lapsed_count(rows, now, k),
        overdue_count(rows.push(row), now, k) == overdue_count(rows, now, k),
        reclaimable_count(rows.push(row), now, k) == reclaimable_count(rows, now, k),
        state_count(rows.push(row), state, k) == state_count(rows, state, k),
    decreases k,
{
    if k > 0 {
        counts_look_no_further(rows, row, state, now, k - 1);
        assert(rows.push(row)[k - 1] == rows[k - 1]);
    }
}

/// Every row is counted for what it is: one more row adds one to the stranded where it is parked
/// without a snapshot, to the expiring where it is parked with one and its lease ends within thirty
/// seconds, to the lapsed where it is live and its lease has ended, to the overdue where it runs
/// past its deadline on a lasting lease, and to the reclaimable where it is lapsed and either
/// resuming or past its deadline. It adds nothing to the others.
pub proof fn rows_are_counted_for_what_they_are(rows: Seq<RegistryRow>, row: RegistryRow, now: int)
    ensures
        ({
            let n = rows.len() as int;
            let all = rows.push(row);
            let ends = match row.lease_expires_at {
                Some(at) => at@,
                None => row.updated_at@,
            };
            let overdue = row.sandbox_expires_at matches Some(at) && at@ < now;
            &&& stranded_count(all, n + 1) == stranded_count(rows, n) + if (row.state is Publishing || row.state is LocalOnly) && row.snapshot_id is None {
                1int
            } else {
                0
            }
            &&& expiring_count(all, now, n + 1) == expiring_count(rows, now, n) + if (row.state is Publishing || row.state is LocalOnly) && row.snapshot_id is Some && ends < now + 30_000_000_000 {
                1int
            } else {
                0
            }
            &&& lapsed_count(all, now, n + 1) == lapsed_count(rows, now, n) + if (row.state is Running || row.state is Resuming) && ends < now {
                1int
            } else {
                0
            }
            &&& overdue_count(all, now, n + 1) == overdue_count(rows, now, n) + if row.state is Running && ends >= now && overdue {
                1int
            } else {
                0
            }
            &&& reclaimable_count(all, now, n + 1) == reclaimable_count(rows, now, n) + if (row.state is Resuming || (row.state is Running && overdue)) && ends < now {
                1int
            } else {
                0
            }
        }),
        stranded_count(Seq::empty(), 0) == 0,
        expiring_count(Seq::empty(), now, 0) == 0,
        lapsed_count(Seq::empty(), now, 0) == 0,
        overdue_count(Seq::empty(), now, 0) == 0,
        reclaimable_count(Seq::empty(), now, 0) == 0,
{
    counts_look_no_further(rows, row, row.state, now, rows.len() as int);
}

/// One more row adds one to the count of its own state and nothing to another.
pub proof fn rows_are_counted_in_their_state(
    rows: Seq<RegistryRow>,
    row: RegistryRow,
    state: PausedRegistryState,
)
    ensures
        state_count(rows.push(row), state, rows.len() as int + 1) == state_count(
            rows,
            state,
            rows.len() as int,
        ) + if row.state == state {
            1int
        } else {
            0
        },
        state_count(Seq::empty(), state, 0) == 0,
{
    counts_look_no_further(rows, row, state, 0, rows.len() as int);
}

} // verus!
