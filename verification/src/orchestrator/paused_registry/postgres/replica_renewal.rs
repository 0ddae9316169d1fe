//! Per-replica, unelected renewal from each replica's heartbeat roster.
//! SQL rechecks every `(sandbox, node)` pair, so the union of independently
//! pinned rosters safely renews the whole fleet.

use super::lease::LeaseHolder;
use crate::ids::{uuid_number, SandboxId};
use crate::node_registry::types::Roster;
use crate::time::{Span, Timestamp};
use vstd::prelude::*;
use vstd::string::*;

verus! {

/// Per-replica renewal cadence, in seconds.
pub const RENEWAL_INTERVAL_SECS: u64 = 10;

/// A roster with its sandbox ids parsed; an id that does not parse is missing.
#[derive(Debug)]
pub struct ParsedRoster {
    pub node_id: String,
    pub sandbox_ids: Vec<Option<SandboxId>>,
    pub last_seen: Option<Timestamp>,
}

/// Mathematical reading of a [`ParsedRoster`].
pub struct RosterModel {
    pub node_id: Seq<char>,
    pub sandbox_ids: Seq<Option<SandboxId>>,
    pub last_seen: Option<Timestamp>,
}

impl View for ParsedRoster {
    type V = RosterModel;

    open spec fn view(&self) -> RosterModel {
        RosterModel {
            node_id: self.node_id@,
            sandbox_ids: self.sandbox_ids@,
            last_seen: self.last_seen,
        }
    }
}

/// The models of parsed rosters.
pub open spec fn roster_models(rosters: Seq<ParsedRoster>) -> Seq<RosterModel> {
    Seq::new(rosters.len(), |i: int| rosters[i]@)
}

/// A renewal candidate: a sandbox and the node that reported it.
pub struct Candidate {
    pub sandbox_id: SandboxId,
    pub node_id: Seq<char>,
}

/// The candidates that holders stand for.
pub open spec fn candidates_in(holders: Seq<LeaseHolder>) -> Seq<Candidate> {
    Seq::new(
        holders.len(),
        |i: int| Candidate { sandbox_id: holders[i].sandbox_id, node_id: holders[i].node_id@ },
    )
}

/// Whether a report is at most `ttl` old; one from the future is fresh.
pub open spec fn is_fresh(last_seen: Option<Timestamp>, now: int, ttl: int) -> bool {
    last_seen matches Some(at) && now - at@ <= ttl
}

/// The candidates among the first `k` sandboxes of a roster.
pub open spec fn roster_candidates(roster: RosterModel, k: int) -> Seq<Candidate>
    decreases k,
{
    if k <= 0 {
        Seq::empty()
    } else {
        match roster.sandbox_ids[k - 1] {
            Some(sandbox_id) => roster_candidates(roster, k - 1).push(
                Candidate { sandbox_id, node_id: roster.node_id },
            ),
            None => roster_candidates(roster, k - 1),
        }
    }
}

/// The candidates of the fresh ones among the first `k` rosters.
pub open spec fn fresh_candidates(rosters: Seq<RosterModel>, now: int, ttl: int, k: int) -> Seq<
    Candidate,
>
    decreases k,
{
    if k <= 0 {
        Seq::empty()
    } else if is_fresh(rosters[k - 1].last_seen, now, ttl) {
        fresh_candidates(rosters, now, ttl, k - 1) + roster_candidates(
            rosters[k - 1],
            rosters[k - 1].sandbox_ids.len() as int,
        )
    } else {
        fresh_candidates(rosters, now, ttl, k - 1)
    }
}

/// Whether a report is at most `ttl` old.
pub fn roster_is_fresh(last_seen: Option<Timestamp>, now: Timestamp, ttl: Span) -> (r: bool)
    ensures
        r == is_fresh(last_seen, now@, ttl@),
        r <==> (last_seen matches Some(at) && now@ <= at@ + ttl@),
{
    match last_seen {
        Some(at) => now.total_nanos() - at.total_nanos() <= ttl.total_nanos(),
        None => false,
    }
}

/// Builds renewal candidates from rosters whose ids are parsed.
pub fn candidates_from_parsed(rosters: &Vec<ParsedRoster>, now: Timestamp, fresh_ttl: Span) -> (r:
    Vec<LeaseHolder>)
    ensures
        candidates_in(r@) == fresh_candidates(
            roster_models(rosters@),
            now@,
            fresh_ttl@,
            rosters@.len() as int,
        ),
{
    let mut out: Vec<LeaseHolder> = Vec::new();
    let mut k: usize = 0;
    proof {
        assert(candidates_in(out@) =~= Seq::<Candidate>::empty());
    }
    while k < rosters.len()
        invariant
            k <= rosters@.len(),
            candidates_in(out@) == fresh_candidates(
                roster_models(rosters@),
                now@,
                fresh_ttl@,
                k as int,
            ),
        decreases rosters@.len() - k,
    {
        let roster = &rosters[k];
        assert(roster_models(rosters@)[k as int] == roster@);
        if roster_is_fresh(roster.last_seen, now, fresh_ttl) {
            let ghost base = candidates_in(out@);
            let mut i: usize = 0;
            proof {
                assert(base + roster_candidates(roster@, 0) =~= base);
            }
            while i < roster.sandbox_ids.len()
                invariant
                    i <= roster.sandbox_ids@.len(),
                    candidates_in(out@) == base + roster_candidates(roster@, i as int),
                decreases roster.sandbox_ids@.len() - i,
            {
                if let Some(sandbox_id) = roster.sandbox_ids[i] {
                    let ghost before = candidates_in(out@);
                    out.push(LeaseHolder { sandbox_id, node_id: roster.node_id.clone() });
                    proof {
                        let c = Candidate { sandbox_id, node_id: roster.node_id@ };
                        assert(candidates_in(out@) =~= before.push(c));
                        assert(base + roster_candidates(roster@, i as int).push(c) =~= (base
                            + roster_candidates(roster@, i as int)).push(c));
                    }
                }
                i = i + 1;
            }
        }
        k = k + 1;
    }
    out
}

/// The ids of a roster, parsed.
pub open spec fn parsed_ids(roster: Roster) -> Seq<Option<SandboxId>> {
    Seq::new(
        roster.entries@.len(),
        |i: int|
            match uuid_number(roster.entries@[i].sandbox_id@) {
                Some(number) => Some(SandboxId { number }),
                None => None,
            },
    )
}

/// The model of a roster once its ids are parsed.
pub open spec fn parsed(roster: Roster) -> RosterModel {
    RosterModel {
        node_id: roster.node_id@,
        sandbox_ids: parsed_ids(roster),
        last_seen: roster.last_seen,
    }
}

/// The models of rosters once their ids are parsed.
pub open spec fn all_parsed(rosters: Seq<Roster>) -> Seq<RosterModel> {
    Seq::new(rosters.len(), |i: int| parsed(rosters[i]))
}

/// Builds renewal candidates from fresh heartbeat rosters: those seen at most `fresh_ttl` ago. An
/// id that does not parse is skipped without dropping its siblings.
pub fn candidates_from_rosters(rosters: &Vec<Roster>, now: Timestamp, fresh_ttl: Span) -> (r: Vec<
    LeaseHolder,
>)
    ensures
        candidates_in(r@) == fresh_candidates(
            all_parsed(rosters@),
            now@,
            fresh_ttl@,
            rosters@.len() as int,
        ),
{
    let mut out: Vec<ParsedRoster> = Vec::new();
    let mut k: usize = 0;
    while k < rosters.len()
        invariant
            k <= rosters@.len(),
            out@.len() == k,
            forall|i: int| 0 <= i < k ==> (#[trigger] out@[i])@ == parsed(rosters@[i]),
        decreases rosters@.len() - k,
    {
        let roster = &rosters[k];
        let mut sandbox_ids: Vec<Option<SandboxId>> = Vec::new();
        let mut i: usize = 0;
        while i < roster.entries.len()
            invariant
                i <= roster.entries@.len(),
                sandbox_ids@ =~= parsed_ids(*roster).take(i as int),
            decreases roster.entries@.len() - i,
        {
            sandbox_ids.push(SandboxId::parse_str(roster.entries[i].sandbox_id.as_str()));
            i = i + 1;
        }
        proof {
            assert(parsed_ids(*roster).take(i as int) =~= parsed_ids(*roster));
        }
        out.push(
            ParsedRoster {
                node_id: roster.node_id.clone(),
                sandbox_ids,
                last_seen: roster.last_seen,
            },
        );
        k = k + 1;
    }
    proof {
        assert(roster_models(out@) =~= all_parsed(rosters@));
    }
    candidates_from_parsed(&out, now, fresh_ttl)
}

/// Every sandbox of every fresh roster is a candidate, under the node that reported it.
pub proof fn candidates_cover_every_fresh_roster(
    rosters: Seq<RosterModel>,
    now: int,
    ttl: int,
    k: int,
    i: int,
)
    requires
        0 <= k < rosters.len(),
        is_fresh(rosters[k].last_seen, now, ttl),
        0 <= i < rosters[k].sandbox_ids.len(),
        rosters[k].sandbox_ids[i] is Some,
    ensures
        fresh_candidates(rosters, now, ttl, rosters.len() as int).contains(
            Candidate {
                sandbox_id: rosters[k].sandbox_ids[i]->0,
                node_id: rosters[k].node_id,
            },
        ),
{
    let n = rosters[k].sandbox_ids.len() as int;
    let c = Candidate { sandbox_id: rosters[k].sandbox_ids[i]->0, node_id: rosters[k].node_id };
    roster_candidates_grow(rosters[k], i + 1, n);
    let part = roster_candidates(rosters[k], i + 1);
    assert(part[part.len() - 1] == c);
    let whole = roster_candidates(rosters[k], n);
    assert(whole[part.len() - 1] == c);
    let before = fresh_candidates(rosters, now, ttl, k);
    let upto = fresh_candidates(rosters, now, ttl, k + 1);
    assert(upto[before.len() + part.len() - 1] == c);
    fresh_candidates_grow(rosters, now, ttl, k + 1, rosters.len() as int);
    assert(fresh_candidates(rosters, now, ttl, rosters.len() as int)[before.len() + part.len() - 1]
        == c);
}

/// Nothing is a candidate but what a fresh roster reports.
pub proof fn candidates_come_from_fresh_rosters(
    rosters: Seq<RosterModel>,
    now: int,
    ttl: int,
    c: Candidate,
)
    requires
        fresh_candidates(rosters, now, ttl, rosters.len() as int).contains(c),
    ensures
        exists|k: int, i: int|
            0 <= k < rosters.len() && is_fresh(rosters[k].last_seen, now, ttl) && 0 <= i
                < rosters[k].sandbox_ids.len() && c.node_id == rosters[k].node_id
                && #[trigger] rosters[k].sandbox_ids[i] == Some(c.sandbox_id),
{
    come_from_fresh(rosters, now, ttl, c, rosters.len() as int);
}

proof fn come_from_fresh(rosters: Seq<RosterModel>, now: int, ttl: int, c: Candidate, n: int)
    requires
        0 <= n <= rosters.len(),
        fresh_candidates(rosters, now, ttl, n).contains(c),
    ensures
        exists|k: int, i: int|
            0 <= k < rosters.len() && is_fresh(rosters[k].last_seen, now, ttl) && 0 <= i
                < rosters[k].sandbox_ids.len() && c.node_id == rosters[k].node_id
                && #[trigger] rosters[k].sandbox_ids[i] == Some(c.sandbox_id),
    decreases n,
{
    if n > 0 {
        let all = fresh_candidates(rosters, now, ttl, n);
        let before = fresh_candidates(rosters, now, ttl, n - 1);
        let p = choose|p: int| 0 <= p < all.len() && all[p] == c;
        if p < before.len() {
            assert(before[p] == c);
            come_from_fresh(rosters, now, ttl, c, n - 1);
        } else {
            let m = rosters[n - 1].sandbox_ids.len() as int;
            assert(roster_candidates(rosters[n - 1], m)[p - before.len()] == c);
            come_from_roster(rosters[n - 1], m, c);
            let i = choose|i: int|
                0 <= i < m && #[trigger] rosters[n - 1].sandbox_ids[i] == Some(c.sandbox_id);
            assert(rosters[n - 1].sandbox_ids[i] == Some(c.sandbox_id));
        }
    }
}

proof fn come_from_roster(roster: RosterModel, n: int, c: Candidate)
    requires
        0 <= n <= roster.sandbox_ids.len(),
        roster_candidates(roster, n).contains(c),
    ensures
        c.node_id == roster.node_id,
        exists|i: int| 0 <= i < n && #[trigger] roster.sandbox_ids[i] == Some(c.sandbox_id),
    decreases n,
{
    if n > 0 {
        let all = roster_candidates(roster, n);
        let before = roster_candidates(roster, n - 1);
        let p = choose|p: int| 0 <= p < all.len() && all[p] == c;
        if p < before.len() {
            assert(before[p] == c);
            come_from_roster(roster, n - 1, c);
        } else {
            assert(roster.sandbox_ids[n - 1] == Some(c.sandbox_id));
        }
    }
}

proof fn roster_candidates_grow(roster: RosterModel, k: int, n: int)
    requires
        0 <= k <= n,
    ensures
        roster_candidates(roster, k).len() <= roster_candidates(roster, n).len(),
        forall|i: int|
            0 <= i < roster_candidates(roster, k).len() ==> #[trigger] roster_candidates(
                roster,
                n,
            )[i] == roster_candidates(roster, k)[i],
    decreases n - k,
{
    if k < n {
        roster_candidates_grow(roster, k, n - 1);
    }
}

proof fn fresh_candidates_grow(rosters: Seq<RosterModel>, now: int, ttl: int, k: int, n: int)
    requires
        0 <= k <= n,
    ensures
        fresh_candidates(rosters, now, ttl, k).len() <= fresh_candidates(
            rosters,
            now,
            ttl,
            n,
        ).len(),
        forall|i: int|
            0 <= i < fresh_candidates(rosters, now, ttl, k).len() ==> #[trigger] fresh_candidates(
                rosters,
                now,
                ttl,
                n,
            )[i] == fresh_candidates(rosters, now, ttl, k)[i],
    decreases n - k,
{
    if k < n {
        fresh_candidates_grow(rosters, now, ttl, k, n - 1);
    }
}

/// A report is fresh for its whole time to live and no longer, and a node that never reported is
/// not.
pub proof fn reports_are_fresh_for_their_time(last_seen: Option<Timestamp>, now: int, ttl: int)
    ensures
        last_seen matches Some(at) ==> (is_fresh(last_seen, now, ttl) <==> now <= at@ + ttl),
        last_seen is None ==> !is_fresh(last_seen, now, ttl),
{
}

/// A roster is read entry by entry, under its own node and report: each id is what the entry
/// spells, and one that spells none drops no other.
pub proof fn rosters_are_read_entry_by_entry(rosters: Seq<Roster>, k: int, i: int)
    requires
        0 <= k < rosters.len(),
        0 <= i < rosters[k].entries@.len(),
    ensures
        all_parsed(rosters).len() == rosters.len(),
        all_parsed(rosters)[k].node_id == rosters[k].node_id@,
        all_parsed(rosters)[k].last_seen == rosters[k].last_seen,
        all_parsed(rosters)[k].sandbox_ids.len() == rosters[k].entries@.len(),
        match all_parsed(rosters)[k].sandbox_ids[i] {
            Some(id) => uuid_number(rosters[k].entries@[i].sandbox_id@) == Some(id.number),
            None => uuid_number(rosters[k].entries@[i].sandbox_id@) is None,
        },
{
}

/// A holder stands for its own sandbox and node.
pub proof fn holders_stand_for_themselves(holders: Seq<LeaseHolder>, i: int)
    requires
        0 <= i < holders.len(),
    ensures
        candidates_in(holders).len() == holders.len(),
        candidates_in(holders)[i].sandbox_id == holders[i].sandbox_id,
        candidates_in(holders)[i].node_id == holders[i].node_id@,
{
}

} // verus!
