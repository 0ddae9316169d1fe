//! Paused-registry reads share [`ENTRY_COLUMNS`](super::sql::ENTRY_COLUMNS) and one row
//! decoder so caller-facing and internal query shapes cannot drift.

use super::super::types::{PausedRegistryListEntry, PausedRegistryListing, PausedSandboxEntry};
use super::row::{decode_entry, decode_list_entry, decode_registry_row};
use super::row::{entry_fault, entry_of, identity_fault, list_entry_of, registry_row_of};
use super::row::{EntryRow, RegistryRow};
use super::sql;
use crate::ids::{uuid_number, SandboxId};
use crate::time::Timestamp;
use std::collections::HashMap;
use vstd::prelude::*;
use vstd::string::*;

verus! {

/// The answer to a read of several sandboxes.
pub struct PausedRegistryRows {
    /// The rows that were found, by the number of their sandbox.
    pub entries: HashMap<u128, PausedSandboxEntry>,
    /// The sandboxes of which a missing entry means absence.
    pub covered: Vec<SandboxId>,
}

impl PausedRegistryRows {
    /// Whether the read answers for every one of `ids`.
    pub fn covers(&self, ids: &Vec<SandboxId>) -> (r: bool)
        ensures
            r == (forall|i: int| 0 <= i < ids@.len() ==> self.covered@.contains(#[trigger] ids@[i])),
    {
        let mut i: usize = 0;
        while i < ids.len()
            invariant
                i <= ids@.len(),
                forall|j: int| 0 <= j < i ==> self.covered@.contains(#[trigger] ids@[j]),
            decreases ids@.len() - i,
        {
            if !lists_id(&self.covered, ids[i]) {
                assert(!self.covered@.contains(ids@[i as int]));
                return false;
            }
            i = i + 1;
        }
        true
    }
}

/// Whether `ids` holds `id`.
fn lists_id(ids: &Vec<SandboxId>, id: SandboxId) -> (r: bool)
    ensures
        r == ids@.contains(id),
{
    let mut i: usize = 0;
    while i < ids.len()
        invariant
            i <= ids@.len(),
            forall|j: int| 0 <= j < i ==> ids@[j] != id,
        decreases ids@.len() - i,
    {
        if ids[i] == id {
            return true;
        }
        i = i + 1;
    }
    false
}

/// A row after decoding: the sandbox it names, and its entry where it is one.
pub struct DecodedRow {
    pub sandbox_id: Option<SandboxId>,
    pub entry: Option<PausedSandboxEntry>,
}

/// The entries among the first `k` rows, by sandbox; the last row of a sandbox counts.
pub open spec fn entries_of(rows: Seq<DecodedRow>, k: int) -> Map<u128, PausedSandboxEntry>
    decreases k,
{
    if k <= 0 {
        Map::empty()
    } else {
        match rows[k - 1].entry {
            Some(entry) => entries_of(rows, k - 1).insert(entry.sandbox_id.number, entry),
            None => entries_of(rows, k - 1),
        }
    }
}

/// How many of the first `k` rows are no entry.
pub open spec fn undecodable_count(rows: Seq<DecodedRow>, k: int) -> nat
    decreases k,
{
    if k <= 0 {
        0
    } else {
        undecodable_count(rows, k - 1) + if rows[k - 1].entry is None {
            1nat
        } else {
            0nat
        }
    }
}

/// Whether a row of `id` is no entry.
pub open spec fn has_undecodable(rows: Seq<DecodedRow>, id: SandboxId) -> bool {
    exists|i: int|
        0 <= i < rows.len() && (#[trigger] rows[i]).entry is None && rows[i].sandbox_id == Some(id)
}

/// Whether a row is no entry and names no sandbox either.
pub open spec fn has_unattributable(rows: Seq<DecodedRow>) -> bool {
    exists|i: int|
        0 <= i < rows.len() && (#[trigger] rows[i]).entry is None && rows[i].sandbox_id is None
}

/// The requested sandboxes that the rows answer for: none where a bad row names no sandbox, and
/// all but those with a bad row otherwise.
pub open spec fn covered_of(requested: Seq<SandboxId>, rows: Seq<DecodedRow>) -> Seq<SandboxId> {
    if has_unattributable(rows) {
        Seq::empty()
    } else {
        requested.filter(|id: SandboxId| !has_undecodable(rows, id))
    }
}

/// Collects decoded rows. Coverage holds real absences but no undecodable rows; if a bad row
/// cannot be attributed to an id, nothing is covered. The number is that of the bad rows.
pub fn collect_decoded(requested: &Vec<SandboxId>, rows: Vec<DecodedRow>) -> (r: (
    PausedRegistryRows,
    u32,
))
    requires
        rows@.len() <= u32::MAX,
    ensures
        r.0.entries@ == entries_of(rows@, rows@.len() as int),
        r.0.covered@ == covered_of(requested@, rows@),
        r.1 == undecodable_count(rows@, rows@.len() as int),
{
    broadcast use vstd::std_specs::hash::group_hash_axioms;

    let ghost all = rows@;
    let mut entries: HashMap<u128, PausedSandboxEntry> = HashMap::new();
    let mut undecodable: Vec<SandboxId> = Vec::new();
    let mut unattributable: bool = false;
    let mut skipped: u32 = 0;
    for row in it: rows.into_iter()
        invariant
            it.seq() == all,
            all.len() <= u32::MAX,
            entries@ == entries_of(all, it.index() as int),
            skipped == undecodable_count(all, it.index() as int),
            skipped <= it.index(),
            unattributable == (exists|i: int|
                0 <= i < it.index() && (#[trigger] all[i]).entry is None && all[i].sandbox_id
                    is None),
            forall|id: SandboxId| #[trigger]
                undecodable@.contains(id) <==> exists|i: int|
                    0 <= i < it.index() && (#[trigger] all[i]).entry is None && all[i].sandbox_id
                        == Some(id),
    {
        let ghost k = it.index() as int;
        let ghost seen = undecodable@;
        assert(row == all[k]);
        match row.entry {
            Some(entry) => {
                let number: u128 = entry.sandbox_id.number;
                entries.insert(number, entry);
            },
            None => {
                skipped = skipped + 1;
                match row.sandbox_id {
                    Some(id) => {
                        undecodable.push(id);
                        proof {
                            assert forall|x: SandboxId| #[trigger]
                                undecodable@.contains(x) <==> seen.contains(x) || x == id by {
                                if undecodable@.contains(x) {
                                    let i = choose|i: int|
                                        0 <= i < undecodable@.len() && undecodable@[i] == x;
                                    if i < seen.len() {
                                        assert(seen[i] == x);
                                    }
                                }
                                if seen.contains(x) {
                                    let i = choose|i: int| 0 <= i < seen.len() && seen[i] == x;
                                    assert(undecodable@[i] == x);
                                }
                                assert(undecodable@[seen.len() as int] == id);
                            }
                        }
                    },
                    None => {
                        unattributable = true;
                    },
                }
            },
        }
    }
    let mut covered: Vec<SandboxId> = Vec::new();
    if !unattributable {
        let ghost pred = |id: SandboxId| !has_undecodable(all, id);
        let mut i: usize = 0;
        proof {
            reveal(Seq::filter);
            assert(requested@.take(0).filter(pred) =~= Seq::<SandboxId>::empty());
        }
        while i < requested.len()
            invariant
                i <= requested@.len(),
                pred == (|id: SandboxId| !has_undecodable(all, id)),
                covered@ == requested@.take(i as int).filter(pred),
                forall|id: SandboxId| #[trigger]
                    undecodable@.contains(id) <==> has_undecodable(all, id),
            decreases requested@.len() - i,
        {
            let id = requested[i];
            proof {
                reveal(Seq::filter);
                assert(requested@.take(i as int + 1).drop_last() =~= requested@.take(i as int));
                assert(requested@.take(i as int + 1).last() == id);
            }
            if !lists_id(&undecodable, id) {
                covered.push(id);
            }
            i = i + 1;
        }
        proof {
            assert(requested@.take(i as int) =~= requested@);
        }
    }
    (PausedRegistryRows { entries, covered }, skipped)
}

/// A row after decoding.
pub open spec fn decoded(row: EntryRow) -> DecodedRow {
    DecodedRow {
        sandbox_id: match uuid_number(row.sandbox_id@) {
            Some(number) => Some(SandboxId { number }),
            None => None,
        },
        entry: if entry_fault(row) is None {
            Some(entry_of(row))
        } else {
            None
        },
    }
}

/// The rows after decoding.
pub open spec fn all_decoded(rows: Seq<EntryRow>) -> Seq<DecodedRow> {
    Seq::new(rows.len(), |i: int| decoded(rows[i]))
}

/// Decodes the rows of a read of several sandboxes and says what it answers for. Without requested
/// sandboxes there are no rows, and nothing is covered.
pub fn collect_entries(requested: &Vec<SandboxId>, rows: Vec<EntryRow>) -> (r: (
    PausedRegistryRows,
    u32,
))
    requires
        rows@.len() <= u32::MAX,
    ensures
        r.0.entries@ == entries_of(all_decoded(rows@), rows@.len() as int),
        r.0.covered@ == covered_of(requested@, all_decoded(rows@)),
        r.1 == undecodable_count(all_decoded(rows@), rows@.len() as int),
{
    let ghost all = rows@;
    let mut out: Vec<DecodedRow> = Vec::new();
    for row in it: rows.into_iter()
        invariant
            it.seq() == all,
            out@.len() == it.index(),
            forall|i: int| 0 <= i < out@.len() ==> #[trigger] out@[i] == decoded(all[i]),
    {
        let sandbox_id = SandboxId::parse_str(row.sandbox_id.as_str());
        let entry = decode_entry(row).ok();
        out.push(DecodedRow { sandbox_id, entry });
    }
    proof {
        assert(out@ =~= all_decoded(all));
    }
    collect_decoded(requested, out)
}

/// What is there, in order.
pub open spec fn kept<T>(rows: Seq<Option<T>>, k: int) -> Seq<T>
    decreases k,
{
    if k <= 0 {
        Seq::empty()
    } else {
        match rows[k - 1] {
            Some(row) => kept(rows, k - 1).push(row),
            None => kept(rows, k - 1),
        }
    }
}

/// How many of the first `k` are missing.
pub open spec fn missing<T>(rows: Seq<Option<T>>, k: int) -> nat
    decreases k,
{
    if k <= 0 {
        0
    } else {
        missing(rows, k - 1) + if rows[k - 1] is None {
            1nat
        } else {
            0nat
        }
    }
}

/// Keeps the rows that decoded, in order, and counts the others.
pub fn keep_decoded<T>(rows: Vec<Option<T>>) -> (r: (Vec<T>, u32))
    requires
        rows@.len() <= u32::MAX,
    ensures
        r.0@ == kept(rows@, rows@.len() as int),
        r.1 == missing(rows@, rows@.len() as int),
{
    let ghost all = rows@;
    let mut out: Vec<T> = Vec::new();
    let mut skipped: u32 = 0;
    for row in it: rows.into_iter()
        invariant
            it.seq() == all,
            all.len() <= u32::MAX,
            out@ == kept(all, it.index() as int),
            skipped == missing(all, it.index() as int),
            skipped <= it.index(),
    {
        match row {
            Some(value) => out.push(value),
            None => {
                skipped = skipped + 1;
            },
        }
    }
    (out, skipped)
}

/// The internal rows of those that decode.
pub open spec fn registry_rows(rows: Seq<EntryRow>) -> Seq<Option<RegistryRow>> {
    Seq::new(
        rows.len(),
        |i: int|
            if identity_fault(rows[i]) is None {
                Some(registry_row_of(rows[i]))
            } else {
                None
            },
    )
}

/// Decodes the rows that reconciliation aggregates. It only counts what is returned, so skipped
/// rows need no coverage.
pub fn skip_bad_registry_rows(rows: Vec<EntryRow>) -> (r: (Vec<RegistryRow>, u32))
    requires
        rows@.len() <= u32::MAX,
    ensures
        r.0@ == kept(registry_rows(rows@), rows@.len() as int),
        r.1 == missing(registry_rows(rows@), rows@.len() as int),
{
    let ghost all = rows@;
    let mut out: Vec<Option<RegistryRow>> = Vec::new();
    for row in it: rows.into_iter()
        invariant
            it.seq() == all,
            out@.len() == it.index(),
            forall|i: int| 0 <= i < out@.len() ==> #[trigger] out@[i] == registry_rows(all)[i],
    {
        out.push(decode_registry_row(row).ok());
    }
    proof {
        assert(out@ =~= registry_rows(all));
    }
    keep_decoded(out)
}

/// The listing entries of the rows that decode.
pub open spec fn list_entries(rows: Seq<EntryRow>) -> Seq<Option<PausedRegistryListEntry>> {
    Seq::new(
        rows.len(),
        |i: int|
            if identity_fault(rows[i]) is None {
                Some(list_entry_of(rows[i]))
            } else {
                None
            },
    )
}

/// Decodes the rows of the administrative listing.
pub fn skip_bad_list_entries(rows: Vec<EntryRow>) -> (r: (Vec<PausedRegistryListEntry>, u32))
    requires
        rows@.len() <= u32::MAX,
    ensures
        r.0@ == kept(list_entries(rows@), rows@.len() as int),
        r.1 == missing(list_entries(rows@), rows@.len() as int),
{
    let ghost all = rows@;
    let mut out: Vec<Option<PausedRegistryListEntry>> = Vec::new();
    for row in it: rows.into_iter()
        invariant
            it.seq() == all,
            out@.len() == it.index(),
            forall|i: int| 0 <= i < out@.len() ==> #[trigger] out@[i] == list_entries(all)[i],
    {
        out.push(decode_list_entry(row).ok());
    }
    proof {
        assert(out@ =~= list_entries(all));
    }
    keep_decoded(out)
}

/// The listing of the rows that decode, at the database time they were read at, and how many did
/// not decode. One clock instant serves every lease comparison.
pub fn list_all(rows: Vec<EntryRow>, now: Timestamp) -> (r: (PausedRegistryListing, u32))
    requires
        rows@.len() <= u32::MAX,
    ensures
        r.0.sandboxes@ == kept(list_entries(rows@), rows@.len() as int),
        r.0.now == now,
        r.1 == missing(list_entries(rows@), rows@.len() as int),
{
    let (sandboxes, skipped) = skip_bad_list_entries(rows);
    (PausedRegistryListing { sandboxes, now }, skipped)
}

/// Reads the rows that reconciliation aggregates.
pub fn list_registry_rows_sql() -> (r: String)
    ensures
        r@ == "SELECT "@ + sql::ENTRY_COLUMNS@ + " FROM paused_sandboxes WHERE cluster_id = $1::uuid"@,
{
    let mut out = String::new();
    out.append("SELECT ");
    out.append(sql::ENTRY_COLUMNS);
    out.append(" FROM paused_sandboxes WHERE cluster_id = $1::uuid");
    proof {
        assert(out@ =~= "SELECT "@ + sql::ENTRY_COLUMNS@
            + " FROM paused_sandboxes WHERE cluster_id = $1::uuid"@);
    }
    out
}

/// An undecodable row is never mistaken for absence: a covered sandbox was asked for, no row of it
/// is undecodable and no bad row goes unattributed.
pub proof fn coverage_is_trustworthy(requested: Seq<SandboxId>, rows: Seq<DecodedRow>, id: SandboxId)
    requires
        covered_of(requested, rows).contains(id),
    ensures
        requested.contains(id),
        forall|i: int| 0 <= i < rows.len() && (#[trigger] rows[i]).entry is None ==> rows[i].sandbox_id
            is Some && rows[i].sandbox_id != Some(id),
{
    filter_members(requested, |x: SandboxId| !has_undecodable(rows, x), id);
}

/// A real absence is an answer: where every row decodes, every requested sandbox is covered.
pub proof fn absence_is_covered(requested: Seq<SandboxId>, rows: Seq<DecodedRow>)
    requires
        forall|i: int| 0 <= i < rows.len() ==> (#[trigger] rows[i]).entry is Some,
    ensures
        covered_of(requested, rows) == requested,
{
    let pred = |x: SandboxId| !has_undecodable(rows, x);
    filter_keeps_all(requested, pred);
}

proof fn filter_members(s: Seq<SandboxId>, pred: spec_fn(SandboxId) -> bool, id: SandboxId)
    ensures
        s.filter(pred).contains(id) ==> s.contains(id) && pred(id),
    decreases s.len(),
{
    reveal(Seq::filter);
    if s.len() > 0 {
        let rest = s.drop_last();
        filter_members(rest, pred, id);
        if s.filter(pred).contains(id) {
            let i = choose|i: int| 0 <= i < s.filter(pred).len() && s.filter(pred)[i] == id;
            if i < rest.filter(pred).len() {
                assert(rest.filter(pred)[i] == id);
                assert(rest.filter(pred).contains(id));
                let j = choose|j: int| 0 <= j < rest.len() && rest[j] == id;
                assert(s[j] == id);
            } else {
                assert(s[s.len() - 1] == id);
            }
        }
    }
}

proof fn filter_keeps_all(s: Seq<SandboxId>, pred: spec_fn(SandboxId) -> bool)
    requires
        forall|x: SandboxId| #[trigger] pred(x),
    ensures
        s.filter(pred) == s,
    decreases s.len(),
{
    reveal(Seq::filter);
    if s.len() > 0 {
        filter_keeps_all(s.drop_last(), pred);
        assert(s =~= s.drop_last().push(s.last()));
    } else {
        assert(s =~= Seq::empty());
    }
}

proof fn filter_keeps(s: Seq<SandboxId>, pred: spec_fn(SandboxId) -> bool, id: SandboxId)
    requires
        s.contains(id),
        pred(id),
    ensures
        s.filter(pred).contains(id),
    decreases s.len(),
{
    reveal(Seq::filter);
    let rest = s.drop_last();
    let i = choose|i: int| 0 <= i < s.len() && s[i] == id;
    if i < rest.len() {
        assert(rest[i] == id);
        filter_keeps(rest, pred, id);
        let j = choose|j: int| 0 <= j < rest.filter(pred).len() && rest.filter(pred)[j] == id;
        assert(s.filter(pred)[j] == id);
    } else {
        assert(s.filter(pred)[s.filter(pred).len() - 1] == id);
    }
}

/// A read answers for whatever it can: a requested sandbox is covered unless a row of it is
/// undecodable, or a bad row names no sandbox at all.
pub proof fn readable_requests_are_covered(
    requested: Seq<SandboxId>,
    rows: Seq<DecodedRow>,
    id: SandboxId,
)
    requires
        requested.contains(id),
        forall|i: int| 0 <= i < rows.len() && (#[trigger] rows[i]).entry is None ==> rows[i].sandbox_id
            is Some && rows[i].sandbox_id != Some(id),
    ensures
        covered_of(requested, rows).contains(id),
{
    filter_keeps(requested, |x: SandboxId| !has_undecodable(rows, x), id);
}

proof fn entries_come_from_rows(rows: Seq<DecodedRow>, number: u128, k: int)
    requires
        0 <= k <= rows.len(),
    ensures
        entries_of(rows, k).contains_key(number) ==> exists|i: int|
            0 <= i < k && (#[trigger] rows[i]).entry is Some && rows[i].entry->0.sandbox_id.number
                == number,
    decreases k,
{
    if k > 0 {
        entries_come_from_rows(rows, number, k - 1);
        let last = rows[k - 1];
        if last.entry is Some && last.entry->0.sandbox_id.number == number {
            assert(rows[k - 1].entry is Some);
        } else if entries_of(rows, k).contains_key(number) {
            assert(entries_of(rows, k - 1).contains_key(number));
        }
    }
}

proof fn rows_reach_entries(rows: Seq<DecodedRow>, number: u128, i: int, k: int)
    requires
        0 <= i < k <= rows.len(),
        rows[i].entry is Some,
        rows[i].entry->0.sandbox_id.number == number,
    ensures
        entries_of(rows, k).contains_key(number),
    decreases k,
{
    if i < k - 1 {
        rows_reach_entries(rows, number, i, k - 1);
    }
}

proof fn last_rows_stand(rows: Seq<DecodedRow>, number: u128, i: int, k: int)
    requires
        0 <= i < k <= rows.len(),
        rows[i].entry is Some,
        rows[i].entry->0.sandbox_id.number == number,
        forall|p: int|
            i < p < k && (#[trigger] rows[p]).entry is Some ==> rows[p].entry->0.sandbox_id.number
                != number,
    ensures
        entries_of(rows, k)[number] == rows[i].entry->0,
    decreases k,
{
    if i < k - 1 {
        assert(rows[k - 1].entry is Some ==> rows[k - 1].entry->0.sandbox_id.number != number);
        last_rows_stand(rows, number, i, k - 1);
    }
}

/// A sandbox is found exactly where a row of it decodes, under its own number, and what is found is
/// the last such row.
pub proof fn found_entries_are_the_rows(rows: Seq<DecodedRow>, number: u128, i: int)
    ensures
        entries_of(rows, rows.len() as int).contains_key(number) <==> exists|j: int|
            0 <= j < rows.len() && (#[trigger] rows[j]).entry is Some
                && rows[j].entry->0.sandbox_id.number == number,
        0 <= i < rows.len() && rows[i].entry is Some && rows[i].entry->0.sandbox_id.number == number
            && (forall|p: int|
            i < p < rows.len() && (#[trigger] rows[p]).entry is Some
                ==> rows[p].entry->0.sandbox_id.number != number) ==> entries_of(
            rows,
            rows.len() as int,
        )[number] == rows[i].entry->0,
{
    let n = rows.len() as int;
    entries_come_from_rows(rows, number, n);
    if exists|j: int|
        0 <= j < rows.len() && (#[trigger] rows[j]).entry is Some
            && rows[j].entry->0.sandbox_id.number == number {
        let j = choose|j: int|
            0 <= j < rows.len() && (#[trigger] rows[j]).entry is Some
                && rows[j].entry->0.sandbox_id.number == number;
        rows_reach_entries(rows, number, j, n);
    }
    if 0 <= i < rows.len() && rows[i].entry is Some && rows[i].entry->0.sandbox_id.number == number
        && (forall|p: int|
        i < p < rows.len() && (#[trigger] rows[p]).entry is Some
            ==> rows[p].entry->0.sandbox_id.number != number) {
        last_rows_stand(rows, number, i, n);
    }
}

proof fn keeping_looks_no_further<T>(rows: Seq<Option<T>>, row: Option<T>, k: int)
    requires
        0 <= k <= rows.len(),
    ensures
        kept(rows.push(row), k) == kept(rows, k),
        missing(rows.push(row), k) == missing(rows, k),
    decreases k,
{
    if k > 0 {
        keeping_looks_no_further(rows, row, k - 1);
        assert(rows.push(row)[k - 1] == rows[k - 1]);
    }
}

/// What decodes is kept, in order, and what does not is counted: one more row stands at the end of
/// what is kept, or adds one to the count.
pub proof fn rows_are_kept_or_counted<T>(rows: Seq<Option<T>>, row: Option<T>)
    ensures
        ({
            let n = rows.len() as int;
            match row {
                Some(value) => kept(rows.push(row), n + 1) == kept(rows, n).push(value) && missing(
                    rows.push(row),
                    n + 1,
                ) == missing(rows, n),
                None => kept(rows.push(row), n + 1) == kept(rows, n) && missing(
                    rows.push(row),
                    n + 1,
                ) == missing(rows, n) + 1,
            }
        }),
        kept(Seq::<Option<T>>::empty(), 0).len() == 0,
        missing(Seq::<Option<T>>::empty(), 0) == 0,
{
    keeping_looks_no_further(rows, row, rows.len() as int);
}

proof fn undecodable_look_no_further(rows: Seq<DecodedRow>, row: DecodedRow, k: int)
    requires
        0 <= k <= rows.len(),
    ensures
        undecodable_count(rows.push(row), k) == undecodable_count(rows, k),
    decreases k,
{
    if k > 0 {
        undecodable_look_no_further(rows, row, k - 1);
        assert(rows.push(row)[k - 1] == rows[k - 1]);
    }
}

/// Every row is decoded on its own: its sandbox is what its column spells, and it has an entry
/// exactly where it has no fault. Each one without an entry is counted.
pub proof fn rows_are_decoded_one_by_one(rows: Seq<EntryRow>, seen: Seq<DecodedRow>, row: DecodedRow)
    ensures
        all_decoded(rows).len() == rows.len(),
        forall|i: int|
            0 <= i < rows.len() ==> {
                let d = #[trigger] all_decoded(rows)[i];
                &&& d.sandbox_id is Some <==> uuid_number(rows[i].sandbox_id@) is Some
                &&& d.sandbox_id matches Some(id) ==> uuid_number(rows[i].sandbox_id@) == Some(
                    id.number,
                )
                &&& d.entry is Some <==> entry_fault(rows[i]) is None
                &&& d.entry matches Some(entry) ==> entry == entry_of(rows[i])
            },
        undecodable_count(seen.push(row), seen.len() as int + 1) == undecodable_count(
            seen,
            seen.len() as int,
        ) + if row.entry is None {
            1int
        } else {
            0
        },
        undecodable_count(Seq::empty(), 0) == 0,
{
    undecodable_look_no_further(seen, row, seen.len() as int);
}

/// A listing shows each row that decodes, once, and so does what reconciliation reads.
pub proof fn listings_show_what_decodes(rows: Seq<EntryRow>)
    ensures
        list_entries(rows).len() == rows.len(),
        registry_rows(rows).len() == rows.len(),
        forall|i: int|
            0 <= i < rows.len() ==> (#[trigger] list_entries(rows)[i] is Some <==> identity_fault(
                rows[i],
            ) is None) && (list_entries(rows)[i] matches Some(entry) ==> entry == list_entry_of(
                rows[i],
            )),
        forall|i: int|
            0 <= i < rows.len() ==> (#[trigger] registry_rows(rows)[i] is Some <==> identity_fault(
                rows[i],
            ) is None) && (registry_rows(rows)[i] matches Some(row) ==> row == registry_row_of(
                rows[i],
            )),
{
}

} // verus!
