//! PostgreSQL-backed restart grace shared by independently elected reconcile
//! and reclaim leaders. [`enter`] extends leases and persists the grace phase;
//! [`is_serving`] gates takeover and reclaim from every replica.
//! A new PostgreSQL backend PID starts a new epoch. Record it only after
//! [`enter`] succeeds, so transient failures retry on the next tick.
//! Extra entries only extend leases and are therefore conservative.

use super::row::RegistryRow;
use crate::time::{is_instant, Span, Timestamp};
use vstd::prelude::*;

verus! {

/// Startup budget for the best-effort initial grace entry, in seconds.
pub const INITIAL_ENTRY_BUDGET_SECS: u64 = 5;

/// Records a cluster's grace phase.
pub const RECORD_GRACE_SQL: &'static str = "INSERT INTO paused_registry_grace (cluster_id, grace_until, downtime_secs, leases_extended, entered_at)
         VALUES ($1, now() + make_interval(secs => $2::double precision), $3, $4, now())
         ON CONFLICT (cluster_id) DO UPDATE SET
             grace_until     = EXCLUDED.grace_until,
             downtime_secs   = EXCLUDED.downtime_secs,
             leases_extended = EXCLUDED.leases_extended,
             entered_at      = EXCLUDED.entered_at";

/// Reads whether a cluster is past its grace phase.
pub const GRACE_PHASE_SQL: &'static str = "SELECT (now() >= grace_until) FROM paused_registry_grace WHERE cluster_id = $1";

/// Restart-grace measurements produced by [`enter`].
#[derive(Debug, Clone, Copy)]
pub struct GraceObservation {
    /// How long nothing was written before the restart.
    pub downtime: Span,
    /// How many leases were extended.
    pub extended: u64,
    /// When the grace phase ends.
    pub grace_until: Timestamp,
}

/// The last update among the first `k` rows that are in the cluster.
pub open spec fn last_update(rows: Seq<RegistryRow>, cluster_id: u128, k: int) -> Option<int>
    decreases k,
{
    if k <= 0 {
        None
    } else {
        let before = last_update(rows, cluster_id, k - 1);
        if rows[k - 1].cluster_id != cluster_id {
            before
        } else {
            match before {
                Some(at) if at >= rows[k - 1].updated_at@ => before,
                _ => Some(rows[k - 1].updated_at@),
            }
        }
    }
}

/// How many of the first `k` rows are in the cluster.
pub open spec fn cluster_count(rows: Seq<RegistryRow>, cluster_id: u128, k: int) -> nat
    decreases k,
{
    if k <= 0 {
        0
    } else {
        cluster_count(rows, cluster_id, k - 1) + if rows[k - 1].cluster_id == cluster_id {
            1nat
        } else {
            0nat
        }
    }
}

/// The downtime that rows show: the time since the last update, never negative, and the grace
/// time itself where the cluster has no row.
pub open spec fn downtime_of(last: Option<int>, ttl: int, now: int) -> int {
    match last {
        Some(at) => if now > at {
            now - at
        } else {
            0
        },
        None => ttl,
    }
}

/// [`EXTEND_LEASES_SQL`](super::sql::EXTEND_LEASES_SQL) and [`RECORD_GRACE_SQL`]: what entering
/// grace at `now` observes of a cluster's rows. Each lease is then extended by the downtime and
/// `ttl` ([`extend_lease`](super::statements::extend_lease)).
pub fn enter(rows: &Vec<RegistryRow>, cluster_id: u128, ttl: Span, now: Timestamp) -> (r:
    GraceObservation)
    requires
        is_instant(now@),
        is_instant(now@ + ttl@),
    ensures
        r.downtime@ == downtime_of(
            last_update(rows@, cluster_id, rows@.len() as int),
            ttl@,
            now@,
        ),
        r.extended == cluster_count(rows@, cluster_id, rows@.len() as int),
        r.grace_until@ == now@ + ttl@,
        r.extended == 0 ==> r.downtime@ == ttl@,
        r.downtime@ >= 0,
{
    let mut last: Option<Timestamp> = None;
    let mut extended: u64 = 0;
    let mut i: usize = 0;
    while i < rows.len()
        invariant
            i <= rows@.len(),
            extended == cluster_count(rows@, cluster_id, i as int),
            extended <= i,
            last is None <==> extended == 0,
            match last {
                Some(at) => last_update(rows@, cluster_id, i as int) == Some(at@),
                None => last_update(rows@, cluster_id, i as int) is None,
            },
        decreases rows@.len() - i,
    {
        if rows[i].cluster_id == cluster_id {
            extended = extended + 1;
            let updated = rows[i].updated_at;
            last =
            match last {
                Some(at) => Some(at.later_of(updated)),
                None => Some(updated),
            };
        }
        i = i + 1;
    }
    let downtime = match last {
        Some(at) => now.since(at),
        None => ttl,
    };
    GraceObservation { downtime, extended, grace_until: now.plus(ttl) }
}

/// Where a cluster's write surface stands.
#[derive(Debug, Clone, Copy, PartialEq, Eq, Structural)]
pub enum WritePhase {
    /// The cluster never entered grace.
    Cold,
    /// The cluster is in grace.
    Grace,
    /// The cluster is past grace.
    Serving,
}

/// The phase that the grace row shows.
pub open spec fn phase_of(serving: Option<bool>) -> WritePhase {
    match serving {
        None => WritePhase::Cold,
        Some(false) => WritePhase::Grace,
        Some(true) => WritePhase::Serving,
    }
}

impl WritePhase {
    /// The phase that the grace row shows: whether its end has passed, where there is a row.
    pub fn from_row(serving: Option<bool>) -> (r: WritePhase)
        ensures
            r == phase_of(serving),
            r is Cold <==> serving is None,
            r is Grace <==> serving == Some(false),
            r is Serving <==> serving == Some(true),
    {
        match serving {
            None => WritePhase::Cold,
            Some(false) => WritePhase::Grace,
            Some(true) => WritePhase::Serving,
        }
    }

    /// The gauge value of the phase.
    pub fn gauge(&self) -> (r: u8)
        ensures
            r == match *self {
                WritePhase::Cold => 0u8,
                WritePhase::Grace => 1u8,
                WritePhase::Serving => 2u8,
            },
    {
        match self {
            WritePhase::Cold => 0,
            WritePhase::Grace => 1,
            WritePhase::Serving => 2,
        }
    }
}

/// What the grace row shows at `now`.
pub fn grace_row_at(grace_until: Option<Timestamp>, now: Timestamp) -> (r: Option<bool>)
    ensures
        r == match grace_until {
            Some(until) => Some(now@ >= until@),
            None => None,
        },
{
    match grace_until {
        Some(until) => Some(!now.before(until)),
        None => None,
    }
}

/// Returns whether the cluster is past restart grace.
///
/// Missing rows conservatively return `false`.
pub fn is_serving(serving: Option<bool>) -> (r: bool)
    ensures
        r == (phase_of(serving) is Serving),
        r == (serving == Some(true)),
{
    serving.unwrap_or(false)
}

/// Whether claims are restricted to durable paused rows: whenever the cluster is not past grace.
pub fn durable_only(serving: Option<bool>) -> (r: bool)
    ensures
        r == !(phase_of(serving) is Serving),
        r == (serving != Some(true)),
{
    !is_serving(serving)
}

/// Returns whether `pid` has not completed [`enter`] on this replica.
pub fn is_new_epoch(last_pid: &i32, pid: i32) -> (r: bool)
    ensures
        r == (*last_pid != pid),
{
    // PostgreSQL backend PIDs start at 1, so 0 is the unseen sentinel.
    *last_pid != pid
}

/// Records `pid` only after its [`enter`] call succeeds.
pub fn record_epoch_entered(last_pid: &mut i32, pid: i32)
    ensures
        *final(last_pid) == pid,
{
    *last_pid = pid;
}

/// One tick of the reconcile leader: whether it enters grace before its pass. `pid` is the
/// session's backend PID, where it could be read.
pub fn tick_enters_grace(last_pid: &i32, pid: Option<i32>) -> (r: bool)
    ensures
        r == (pid matches Some(p) && p != *last_pid),
{
    match pid {
        Some(p) => is_new_epoch(last_pid, p),
        None => false,
    }
}

/// Ends the grace entry of a tick: the epoch is recorded only where the entry succeeded.
pub fn tick_entered_grace(last_pid: &mut i32, pid: i32, entered: bool)
    ensures
        *final(last_pid) == if entered {
            pid
        } else {
            *old(last_pid)
        },
{
    if entered {
        record_epoch_entered(last_pid, pid);
    }
}

/// A cluster that just entered grace serves only once the whole grace time has passed.
pub proof fn grace_lasts_its_time(entered_at: int, ttl: int, now: int)
    requires
        ttl > 0,
    ensures
        phase_of(Some(now >= entered_at + ttl)) is Serving <==> now - entered_at >= ttl,
        phase_of(Some(entered_at >= entered_at + ttl)) is Grace,
{
}

/// The phase follows the grace row: cold without one, in grace until it ends, and serving after.
pub proof fn phases_follow_the_grace_row()
    ensures
        phase_of(None) == WritePhase::Cold,
        phase_of(Some(false)) == WritePhase::Grace,
        phase_of(Some(true)) == WritePhase::Serving,
{
}

/// The downtime is measured from the cluster's latest update: no row of the cluster is later, one of
/// them is that late, and rows of other clusters have no say. It is never negative, and without rows
/// it is the grace time itself.
pub proof fn downtime_is_since_the_latest_update(
    rows: Seq<RegistryRow>,
    cluster_id: u128,
    ttl: int,
    now: int,
)
    requires
        ttl >= 0,
    ensures
        ({
            let n = rows.len() as int;
            let last = last_update(rows, cluster_id, n);
            &&& last is None <==> forall|i: int|
                0 <= i < rows.len() ==> (#[trigger] rows[i]).cluster_id != cluster_id
            &&& last matches Some(at) ==> forall|i: int|
                0 <= i < rows.len() && (#[trigger] rows[i]).cluster_id == cluster_id
                    ==> rows[i].updated_at@ <= at
            &&& last matches Some(at) ==> exists|i: int|
                0 <= i < rows.len() && (#[trigger] rows[i]).cluster_id == cluster_id
                    && rows[i].updated_at@ == at
            &&& downtime_of(last, ttl, now) >= 0
            &&& last is None ==> downtime_of(last, ttl, now) == ttl
            &&& last matches Some(at) ==> (now >= at ==> downtime_of(last, ttl, now) == now - at)
                && (now < at ==> downtime_of(last, ttl, now) == 0)
        }),
{
    latest_update(rows, cluster_id, rows.len() as int);
}

proof fn latest_update(rows: Seq<RegistryRow>, cluster_id: u128, k: int)
    requires
        0 <= k <= rows.len(),
    ensures
        ({
            let last = last_update(rows, cluster_id, k);
            &&& last is None <==> forall|i: int|
                0 <= i < k ==> (#[trigger] rows[i]).cluster_id != cluster_id
            &&& last matches Some(at) ==> forall|i: int|
                0 <= i < k && (#[trigger] rows[i]).cluster_id == cluster_id
                    ==> rows[i].updated_at@ <= at
            &&& last matches Some(at) ==> exists|i: int|
                0 <= i < k && (#[trigger] rows[i]).cluster_id == cluster_id
                    && rows[i].updated_at@ == at
        }),
    decreases k,
{
    if k > 0 {
        latest_update(rows, cluster_id, k - 1);
        let last = last_update(rows, cluster_id, k);
        if rows[k - 1].cluster_id == cluster_id {
            assert(last is Some);
            let before = last_update(rows, cluster_id, k - 1);
            if before is Some && before->0 >= rows[k - 1].updated_at@ {
                let i = choose|i: int|
                    0 <= i < k - 1 && (#[trigger] rows[i]).cluster_id == cluster_id
                        && rows[i].updated_at@ == before->0;
                assert(rows[i].updated_at@ == last->0);
            }
        }
    }
}

proof fn members_look_no_further(rows: Seq<RegistryRow>, row: RegistryRow, cluster_id: u128, k: int)
    requires
        0 <= k <= rows.len(),
    ensures
        cluster_count(rows.push(row), cluster_id, k) == cluster_count(rows, cluster_id, k),
    decreases k,
{
    if k > 0 {
        members_look_no_further(rows, row, cluster_id, k - 1);
        assert(rows.push(row)[k - 1] == rows[k - 1]);
    }
}

/// A lease is extended for every row of the cluster and for no other row.
pub proof fn every_row_of_the_cluster_is_extended(
    rows: Seq<RegistryRow>,
    row: RegistryRow,
    cluster_id: u128,
)
    ensures
        cluster_count(rows.push(row), cluster_id, rows.len() as int + 1) == cluster_count(
            rows,
            cluster_id,
            rows.len() as int,
        ) + if row.cluster_id == cluster_id {
            1int
        } else {
            0
        },
        cluster_count(Seq::empty(), cluster_id, 0) == 0,
{
    members_look_no_further(rows, row, cluster_id, rows.len() as int);
}

} // verus!
