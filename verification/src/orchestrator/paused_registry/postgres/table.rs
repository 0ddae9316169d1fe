//! What a reclaim transaction does to the rows of the registry.
//!
//! Its statements meet every row, each as [`statements`](super::statements) has it, and either all
//! of them count or none.

use super::super::types::{PausedRegistryError, ReleasedHoldings};
use super::reclaim::{reclaim_expired_holdings, reclaim_verdict, DiscardBreaker};
use super::row::RegistryRow;
use super::statements::{
    after, deadline_passed, given_back, is_live, lease_lapsed, reclaim_discards, reclaim_resuming,
    reclaim_running, touches, RowModel, Statement,
};
use crate::time::Timestamp;
use vstd::prelude::*;

verus! {

/// The models of rows.
pub open spec fn row_models(rows: Seq<RegistryRow>) -> Seq<RowModel> {
    Seq::new(rows.len(), |i: int| rows[i]@)
}

/// The releases of a reclaim pass: the running ones, then the resuming ones.
pub open spec fn release_running(cluster_id: u128, now: int) -> Statement {
    Statement::ReclaimRunning { cluster_id, now }
}

/// See [`release_running`].
pub open spec fn release_resuming(cluster_id: u128, now: int) -> Statement {
    Statement::ReclaimResuming { cluster_id, now }
}

/// The discards of a reclaim pass.
pub open spec fn discard(cluster_id: u128, now: int) -> Statement {
    Statement::ReclaimDiscarded { cluster_id, now }
}

/// A row after the releases of a pass.
pub open spec fn released(r: RowModel, cluster_id: u128, now: int) -> RowModel {
    after(
        release_resuming(cluster_id, now),
        after(release_running(cluster_id, now), Some(r)),
    )->0
}

/// The rows after the releases of a pass.
pub open spec fn all_released(rows: Seq<RowModel>, cluster_id: u128, now: int) -> Seq<RowModel> {
    Seq::new(rows.len(), |i: int| released(rows[i], cluster_id, now))
}

/// How many of the first `k` rows a statement touches.
pub open spec fn touched_count(rows: Seq<RowModel>, s: Statement, k: int) -> nat
    decreases k,
{
    if k <= 0 {
        0
    } else {
        touched_count(rows, s, k - 1) + if touches(s, rows[k - 1]) {
            1nat
        } else {
            0nat
        }
    }
}

/// How many of the first `k` rows are in the cluster.
pub open spec fn members(rows: Seq<RowModel>, cluster_id: u128, k: int) -> nat
    decreases k,
{
    if k <= 0 {
        0
    } else {
        members(rows, cluster_id, k - 1) + if rows[k - 1].cluster_id == cluster_id {
            1nat
        } else {
            0nat
        }
    }
}

/// The first `k` rows but for those that the discards of a pass delete.
pub open spec fn undiscarded(rows: Seq<RowModel>, cluster_id: u128, now: int, k: int) -> Seq<
    RowModel,
>
    decreases k,
{
    if k <= 0 {
        Seq::empty()
    } else if touches(discard(cluster_id, now), rows[k - 1]) {
        undiscarded(rows, cluster_id, now, k - 1)
    } else {
        undiscarded(rows, cluster_id, now, k - 1).push(rows[k - 1])
    }
}

/// What a pass counted before it decides whether to discard.
pub struct ReclaimCounts {
    /// How many running rows were released.
    pub running: u64,
    /// How many resuming rows were released.
    pub resuming: u64,
    /// How many rows would be discarded.
    pub candidates: i64,
    /// How many rows the cluster has.
    pub total: i64,
}

/// `c` is what a pass over `rows` counts.
pub open spec fn is_counted(
    c: ReclaimCounts,
    rows: Seq<RowModel>,
    cluster_id: u128,
    now: int,
) -> bool {
    let n = rows.len() as int;
    &&& c.running == touched_count(rows, release_running(cluster_id, now), n)
    &&& c.resuming == touched_count(rows, release_resuming(cluster_id, now), n)
    &&& c.candidates == touched_count(
        all_released(rows, cluster_id, now),
        discard(cluster_id, now),
        n,
    )
    &&& c.total == members(rows, cluster_id, n)
}

/// Releases expired rows and counts what would be discarded: the first half of a reclaim
/// transaction.
pub fn release_expired(rows: &Vec<RegistryRow>, cluster_id: u128, now: Timestamp) -> (r: (
    Vec<RegistryRow>,
    ReclaimCounts,
))
    requires
        rows@.len() <= i64::MAX,
        forall|i: int| 0 <= i < rows@.len() ==> (#[trigger] rows@[i]).generation < i64::MAX,
    ensures
        row_models(r.0@) == all_released(row_models(rows@), cluster_id, now@),
        is_counted(r.1, row_models(rows@), cluster_id, now@),
        r.1.running + r.1.resuming <= rows@.len(),
{
    let ghost models = row_models(rows@);
    let ghost freed = all_released(models, cluster_id, now@);
    let mut out: Vec<RegistryRow> = Vec::new();
    let mut c = ReclaimCounts { running: 0, resuming: 0, candidates: 0, total: 0 };
    let mut i: usize = 0;
    while i < rows.len()
        invariant
            i <= rows@.len() <= i64::MAX,
            models == row_models(rows@),
            freed == all_released(models, cluster_id, now@),
            forall|j: int| 0 <= j < rows@.len() ==> (#[trigger] rows@[j]).generation < i64::MAX,
            out@.len() == i,
            forall|j: int| 0 <= j < i ==> (#[trigger] out@[j])@ == freed[j],
            c.running == touched_count(models, release_running(cluster_id, now@), i as int),
            c.resuming == touched_count(models, release_resuming(cluster_id, now@), i as int),
            c.candidates == touched_count(freed, discard(cluster_id, now@), i as int),
            c.total == members(models, cluster_id, i as int),
            c.running + c.resuming <= i,
            0 <= c.candidates <= i,
            0 <= c.total <= i,
        decreases rows@.len() - i,
    {
        let mut row = rows[i].clone();
        assert(models[i as int] == row@);
        if row.cluster_id == cluster_id {
            c.total = c.total + 1;
        }
        let was_running: bool = reclaim_running(&mut row, cluster_id, now);
        if was_running {
            c.running = c.running + 1;
        } else if reclaim_resuming(&mut row, cluster_id, now) {
            c.resuming = c.resuming + 1;
        }
        assert(row@ == freed[i as int]);
        if reclaim_discards(&row, cluster_id, now) {
            c.candidates = c.candidates + 1;
        }
        out.push(row);
        i = i + 1;
    }
    proof {
        assert(row_models(out@) =~= freed);
    }
    (out, c)
}

/// Discards what the releases left, or rolls everything back where the breaker trips: the second
/// half of a reclaim transaction over `before`. `released` and `counts` are what the first half
/// gave; `ratio_exceeded` and `percent` are the breaker's ratio on those counts.
pub fn discard_or_roll_back(
    before: Vec<RegistryRow>,
    released_rows: Vec<RegistryRow>,
    counts: ReclaimCounts,
    cluster_id: u128,
    now: Timestamp,
    breaker: &DiscardBreaker,
    ratio_exceeded: bool,
    percent: &str,
) -> (r: (Vec<RegistryRow>, Result<ReleasedHoldings, PausedRegistryError>))
    requires
        row_models(released_rows@) == all_released(row_models(before@), cluster_id, now@),
        is_counted(counts, row_models(before@), cluster_id, now@),
        counts.running + counts.resuming <= u64::MAX,
    ensures
        if breaker.trips(counts.candidates, counts.total, ratio_exceeded) {
            &&& r.0 == before
            &&& r.1 matches Err(e) && (e matches PausedRegistryError::Backend { operation, reason }
                && operation@ == "reclaim_expired_holdings"@ && reason@ == breaker.refusal(
                counts.candidates,
                counts.total,
                percent@,
            ))
        } else {
            &&& row_models(r.0@) == undiscarded(
                all_released(row_models(before@), cluster_id, now@),
                cluster_id,
                now@,
                before@.len() as int,
            )
            &&& r.1 == Ok::<_, PausedRegistryError>(
                ReleasedHoldings {
                    released: (counts.running + counts.resuming) as u64,
                    discarded: counts.candidates as u64,
                },
            )
        },
{
    match reclaim_verdict(breaker, counts.candidates, counts.total, ratio_exceeded, percent) {
        Err(e) => (before, Err(e)),
        Ok(_) => {
            let ghost freed = row_models(released_rows@);
            let ghost n = released_rows@.len() as int;
            proof {
                assert(n == freed.len());
                assert(freed.len() == before@.len());
            }
            let mut out: Vec<RegistryRow> = Vec::new();
            let mut discarded: u64 = 0;
            let mut i: usize = 0;
            proof {
                assert(row_models(out@) =~= Seq::<RowModel>::empty());
            }
            while i < released_rows.len()
                invariant
                    i <= released_rows@.len(),
                    freed == row_models(released_rows@),
                    discarded <= i,
                    discarded == touched_count(freed, discard(cluster_id, now@), i as int),
                    row_models(out@) == undiscarded(freed, cluster_id, now@, i as int),
                decreases released_rows@.len() - i,
            {
                let row = &released_rows[i];
                let ghost kept = out@;
                assert(freed[i as int] == row@);
                if reclaim_discards(row, cluster_id, now) {
                    discarded = discarded + 1;
                } else {
                    out.push(row.clone());
                    proof {
                        assert(row_models(out@) =~= row_models(kept).push(row@));
                    }
                }
                i = i + 1;
            }
            (out, Ok(reclaim_expired_holdings(counts.running, counts.resuming, discarded)))
        },
    }
}

/// A pass touches each row in at most one way: it is released, or discarded, or left as it was.
/// What has a snapshot is given back to it, what has none is deleted, and a row that is not live,
/// is leased, is in another cluster, or runs before its deadline is left alone.
pub proof fn a_pass_deals_with_each_row_once(r: RowModel, cluster_id: u128, now: int)
    ensures
        ({
            let expired = r.cluster_id == cluster_id && is_live(r.state) && lease_lapsed(r, now) && (
            deadline_passed(r, now) || (r.state is Resuming && r.snapshot is Some));
            let freed = released(r, cluster_id, now);
            let gone = touches(discard(cluster_id, now), freed);
            if !expired {
                freed == r && !gone
            } else if r.snapshot is Some {
                freed == given_back(r, now) && !gone
            } else {
                freed == r && gone
            }
        }),
{
}

/// A committed pass leaves nothing for a second pass at the same instant.
pub proof fn a_second_pass_finds_nothing(r: RowModel, cluster_id: u128, now: int)
    ensures
        ({
            let freed = released(r, cluster_id, now);
            &&& !touches(release_running(cluster_id, now), freed)
            &&& !touches(release_resuming(cluster_id, now), freed)
        }),
{
}

proof fn passes_look_no_further(
    rows: Seq<RowModel>,
    r: RowModel,
    s: Statement,
    cluster_id: u128,
    now: int,
    k: int,
)
    requires
        0 <= k <= rows.len(),
    ensures
        touched_count(rows.push(r), s, k) == touched_count(rows, s, k),
        members(rows.push(r), cluster_id, k) == members(rows, cluster_id, k),
        undiscarded(rows.push(r), cluster_id, now, k) == undiscarded(rows, cluster_id, now, k),
    decreases k,
{
    if k > 0 {
        passes_look_no_further(rows, r, s, cluster_id, now, k - 1);
        assert(rows.push(r)[k - 1] == rows[k - 1]);
    }
}

/// A pass deals with every row by its own columns: a live row of the cluster whose lease has ended
/// is released where it has a snapshot and is resuming or past its deadline, and is deleted where
/// it has none and is past its deadline. Any other row stays as it was.
pub proof fn a_pass_goes_by_the_columns(r: RowModel, cluster_id: u128, now: int)
    ensures
        ({
            let live = r.state is Running || r.state is Resuming;
            let ended = match r.lease {
                Some(at) => at < now,
                None => r.updated_at < now,
            };
            let overdue = r.deadline matches Some(at) && at < now;
            let freed = released(r, cluster_id, now);
            let gone = touches(discard(cluster_id, now), freed);
            &&& gone <==> r.cluster_id == cluster_id && live && ended && overdue && r.snapshot is None
            &&& freed != r ==> r.cluster_id == cluster_id && live && ended && r.snapshot is Some && (
            r.state is Resuming || overdue)
            &&& r.cluster_id == cluster_id && live && ended && r.snapshot is Some && (
            r.state is Resuming || overdue) ==> freed.state is Paused && freed.snapshot
                == r.snapshot && freed.claimant is None && freed.execution is None
                && freed.generation == r.generation + 1 && freed.lease == Some(now)
            &&& touches(release_running(cluster_id, now), r) ==> r.state is Running
            &&& touches(release_resuming(cluster_id, now), r) ==> r.state is Resuming
        }),
{
}

/// A pass counts and keeps row by row: one more row adds one to a count exactly where its statement
/// touches the row, one to the cluster where the row is in it, and stays behind the others unless it
/// is discarded.
pub proof fn a_pass_counts_row_by_row(
    rows: Seq<RowModel>,
    r: RowModel,
    s: Statement,
    cluster_id: u128,
    now: int,
)
    ensures
        ({
            let n = rows.len() as int;
            &&& touched_count(rows.push(r), s, n + 1) == touched_count(rows, s, n) + if touches(
                s,
                r,
            ) {
                1int
            } else {
                0
            }
            &&& members(rows.push(r), cluster_id, n + 1) == members(rows, cluster_id, n)
                + if r.cluster_id == cluster_id {
                1int
            } else {
                0
            }
            &&& undiscarded(rows.push(r), cluster_id, now, n + 1) == if touches(
                discard(cluster_id, now),
                r,
            ) {
                undiscarded(rows, cluster_id, now, n)
            } else {
                undiscarded(rows, cluster_id, now, n).push(r)
            }
        }),
        touched_count(Seq::empty(), s, 0) == 0,
        members(Seq::empty(), cluster_id, 0) == 0,
        undiscarded(Seq::empty(), cluster_id, now, 0).len() == 0,
        forall|i: int|
            0 <= i < rows.len() ==> #[trigger] all_released(rows, cluster_id, now)[i] == released(
                rows[i],
                cluster_id,
                now,
            ),
        all_released(rows, cluster_id, now).len() == rows.len(),
{
    passes_look_no_further(rows, r, s, cluster_id, now, rows.len() as int);
}

/// What a pass counts goes by the rows' columns, row by row: nothing counts without rows, and one
/// more row adds one to the released running ones, to the released resuming ones or to the
/// candidates for discarding, exactly where it is live in the cluster, its lease has ended and it
/// has, or for a candidate has not, a snapshot; a running row and a candidate are past their
/// deadline too. Every row of the cluster adds one to the total.
pub proof fn passes_count_by_the_columns(
    none: ReclaimCounts,
    before: ReclaimCounts,
    c: ReclaimCounts,
    rows: Seq<RowModel>,
    r: RowModel,
    cluster_id: u128,
    now: int,
)
    requires
        is_counted(none, Seq::empty(), cluster_id, now),
        is_counted(before, rows, cluster_id, now),
        is_counted(c, rows.push(r), cluster_id, now),
    ensures
        none.running == 0 && none.resuming == 0 && none.candidates == 0 && none.total == 0,
        ({
            let ended = match r.lease {
                Some(at) => at < now,
                None => r.updated_at < now,
            };
            let overdue = r.deadline matches Some(at) && at < now;
            let here = r.cluster_id == cluster_id;
            &&& c.running == before.running + if here && r.state is Running && ended && overdue
                && r.snapshot is Some {
                1int
            } else {
                0
            }
            &&& c.resuming == before.resuming + if here && r.state is Resuming && ended
                && r.snapshot is Some {
                1int
            } else {
                0
            }
            &&& c.candidates == before.candidates + if here && (r.state is Running
                || r.state is Resuming) && ended && overdue && r.snapshot is None {
                1int
            } else {
                0
            }
            &&& c.total == before.total + if here {
                1int
            } else {
                0
            }
        }),
{
    let freed = all_released(rows, cluster_id, now);
    a_pass_counts_row_by_row(rows, r, release_running(cluster_id, now), cluster_id, now);
    a_pass_counts_row_by_row(rows, r, release_resuming(cluster_id, now), cluster_id, now);
    a_pass_counts_row_by_row(
        freed,
        released(r, cluster_id, now),
        discard(cluster_id, now),
        cluster_id,
        now,
    );
    a_pass_goes_by_the_columns(r, cluster_id, now);
    assert(all_released(rows.push(r), cluster_id, now) =~= freed.push(
        released(r, cluster_id, now),
    ));
    assert(rows.push(r).len() == rows.len() + 1);
}

} // verus!
