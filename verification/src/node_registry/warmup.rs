//! Gates whether a binding-store miss may be reported as not found.
//!
//! Heartbeats repopulate bindings, so a new registry cannot assert absence until every
//! schedulable discovered node reports or the warm-up deadline passes. The deadline may
//! open the warm-up gate only after at least one report, preventing an unstarted registry from
//! declaring every runtime gone.
//!
//! A roster reaches routing only by being absorbed into the binding store, so a node
//! whose roster this replica failed to absorb shuts the warm-up gate while that node is still
//! discovered and still reporting: its sandboxes have no binding to find, and a miss
//! is not absence. The veto expires with the node's own liveness, so a node that stops
//! heartbeating withholds neither absence nor a verdict that a node is gone.

use crate::text::same_text;
use crate::time::{is_instant, Span, Timestamp, NANOS_PER_SEC};
use vstd::prelude::*;
use vstd::string::*;

verus! {

/// The warm-up window, in seconds, where none is configured.
pub const DEFAULT_WARMUP_TIMEOUT_SECS: u64 = 15;

/// How recent a node's last report is.
#[derive(Debug, Clone, Copy, PartialEq, Eq, Structural)]
pub enum SnapshotFreshness {
    /// Within the report time to live.
    Fresh,
    /// Received after the instant it is read at: a newer report, not a missing one.
    ClockSkew,
    /// Past the report time to live.
    Stale,
}

/// What the node registry knows of one schedulable discovered node at one instant.
#[derive(Debug)]
pub struct NodeReading {
    pub node_id: String,
    /// Whether the registry holds a report of the node, of any age.
    pub observed: bool,
    /// The age of the report, where there is one.
    pub freshness: Option<SnapshotFreshness>,
}

/// A roster that did not reach the binding store.
struct Veto {
    node_id: String,
    failed_at: Timestamp,
}

/// Decides whether a binding-store miss may be reported as absence.
///
/// The unabsorbed-roster veto is process-local while observation is shared through the
/// node-registry store: a replica that never receives node N's heartbeats records no
/// veto for N and answers a miss on N's sandboxes as absence.
pub struct WarmupGate {
    /// Rebased when the heartbeat listener becomes reachable.
    deadline: Timestamp,
    /// The warm-up window, which is also how long one absorption failure vetoes for.
    window: Span,
    /// One-way warm latch; later node joins do not close the warm-up gate.
    warm: bool,
    /// Prevents empty discovery from satisfying readiness vacuously.
    reported: bool,
    /// Absorption failures by node, stamped with the heartbeat that recorded them.
    unabsorbed: Vec<Veto>,
}

/// Mathematical reading of a [`WarmupGate`]; times are in nanoseconds.
pub struct GateModel {
    pub deadline: int,
    pub window: int,
    pub warm: bool,
    pub reported: bool,
    /// When each node's roster last failed to be absorbed.
    pub unabsorbed: Map<Seq<char>, int>,
}

spec fn veto_map(s: Seq<Veto>) -> Map<Seq<char>, int>
    decreases s.len(),
{
    if s.len() == 0 {
        Map::empty()
    } else {
        veto_map(s.drop_last()).insert(s.last().node_id@, s.last().failed_at@)
    }
}

spec fn one_per_node(s: Seq<Veto>) -> bool {
    forall|i: int, j: int|
        0 <= i < j < s.len() ==> (#[trigger] s[i]).node_id@ != (#[trigger] s[j]).node_id@
}

proof fn veto_map_holds(s: Seq<Veto>)
    requires
        one_per_node(s),
    ensures
        forall|i: int|
            0 <= i < s.len() ==> #[trigger] veto_map(s).contains_key(s[i].node_id@) && veto_map(
                s,
            )[s[i].node_id@] == s[i].failed_at@,
        forall|id: Seq<char>| #[trigger]
            veto_map(s).contains_key(id) ==> exists|i: int|
                0 <= i < s.len() && (#[trigger] s[i]).node_id@ == id,
    decreases s.len(),
{
    if s.len() > 0 {
        let rest = s.drop_last();
        veto_map_holds(rest);
        assert forall|i: int| 0 <= i < s.len() implies #[trigger] veto_map(s).contains_key(
            s[i].node_id@,
        ) && veto_map(s)[s[i].node_id@] == s[i].failed_at@ by {
            if i < rest.len() {
                assert(rest[i] == s[i]);
                assert(veto_map(rest).contains_key(rest[i].node_id@));
                assert(s[i].node_id@ != s[s.len() - 1].node_id@);
            }
        }
        assert forall|id: Seq<char>| #[trigger] veto_map(s).contains_key(id) implies exists|i: int|
            0 <= i < s.len() && (#[trigger] s[i]).node_id@ == id by {
            if id == s.last().node_id@ {
                assert(s[s.len() - 1].node_id@ == id);
            } else {
                assert(veto_map(rest).contains_key(id));
                let i = choose|i: int| 0 <= i < rest.len() && (#[trigger] rest[i]).node_id@ == id;
                assert(s[i].node_id@ == id);
            }
        }
    }
}

/// The window in force: the configured one, or the default where it is empty.
pub open spec fn window_of(timeout: int) -> int {
    if timeout > 0 {
        timeout
    } else {
        DEFAULT_WARMUP_TIMEOUT_SECS as int * NANOS_PER_SEC
    }
}

/// The later of two instants.
pub open spec fn later(a: int, b: int) -> int {
    if b > a {
        b
    } else {
        a
    }
}

/// Whether a failure recorded at `recorded_at` still vetoes at `now`: for one window, and never
/// less than one window past the deadline.
pub open spec fn in_force(recorded_at: int, deadline: int, window: int, now: int) -> bool {
    now < later(recorded_at, deadline) + window
}

/// The failures that still veto at `now`.
pub open spec fn only_in_force(
    m: Map<Seq<char>, int>,
    deadline: int,
    window: int,
    now: int,
) -> Map<Seq<char>, int> {
    m.restrict(Set::new(|id: Seq<char>| in_force(m[id], deadline, window, now)))
}

/// Whether a node is within its own report time to live.
pub open spec fn still_reporting(n: NodeReading) -> bool {
    n.freshness == Some(SnapshotFreshness::Fresh) || n.freshness == Some(
        SnapshotFreshness::ClockSkew,
    )
}

impl GateModel {
    /// A gate made at `now`.
    pub open spec fn fresh(timeout: int, now: int) -> GateModel {
        GateModel {
            deadline: now + window_of(timeout),
            window: window_of(timeout),
            warm: false,
            reported: false,
            unabsorbed: Map::empty(),
        }
    }

    /// The warm-up gate with its deadline and window counted from `now`.
    pub open spec fn rebased(self, now: int, timeout: int) -> GateModel {
        GateModel { deadline: now + window_of(timeout), window: window_of(timeout), ..self }
    }

    /// Whether a discovered node that still reports has a roster that was not absorbed.
    pub open spec fn vetoed(self, nodes: Seq<NodeReading>, now: int) -> bool {
        exists|i: int|
            0 <= i < nodes.len() && self.unabsorbed.contains_key((#[trigger] nodes[i]).node_id@)
                && in_force(
                self.unabsorbed[nodes[i].node_id@],
                self.deadline,
                self.window,
                now,
            ) && still_reporting(nodes[i])
    }

    /// Whether warm-up is over: it ended before, every discovered node was observed, or the
    /// deadline passed after a report.
    pub open spec fn complete(self, nodes: Seq<NodeReading>, now: int) -> bool {
        ||| self.warm
        ||| (nodes.len() > 0 && forall|i: int|
            0 <= i < nodes.len() ==> (#[trigger] nodes[i]).observed)
        ||| (self.reported && now >= self.deadline)
    }

    /// Whether a binding miss may be reported as absence.
    pub open spec fn open(self, nodes: Seq<NodeReading>, now: int) -> bool {
        !self.vetoed(nodes, now) && self.complete(nodes, now)
    }

    /// The warm-up gate after it was asked at `now`: an open answer latches.
    pub open spec fn asked(self, nodes: Seq<NodeReading>, now: int) -> GateModel {
        GateModel { warm: self.warm || self.open(nodes, now), ..self }
    }

    /// The warm-up gate after a heartbeat that nothing absorbs a roster from.
    pub open spec fn after_report(self, nodes: Seq<NodeReading>, now: int) -> GateModel {
        GateModel { reported: true, ..self }.asked(nodes, now)
    }

    /// The warm-up gate after a node's roster was absorbed.
    pub open spec fn after_absorbed(
        self,
        node_id: Seq<char>,
        nodes: Seq<NodeReading>,
        now: int,
    ) -> GateModel {
        GateModel {
            unabsorbed: only_in_force(
                self.unabsorbed.remove(node_id),
                self.deadline,
                self.window,
                now,
            ),
            ..self
        }.after_report(nodes, now)
    }

    /// The warm-up gate after a node's roster failed to be absorbed.
    pub open spec fn after_not_absorbed(self, node_id: Seq<char>, failed_at: int) -> GateModel {
        GateModel {
            unabsorbed: only_in_force(
                self.unabsorbed.remove(node_id),
                self.deadline,
                self.window,
                failed_at,
            ).insert(node_id, failed_at),
            ..self
        }
    }
}

impl View for WarmupGate {
    type V = GateModel;

    closed spec fn view(&self) -> GateModel {
        GateModel {
            deadline: self.deadline@,
            window: self.window@,
            warm: self.warm,
            reported: self.reported,
            unabsorbed: veto_map(self.unabsorbed@),
        }
    }
}

impl WarmupGate {
    /// No node has two failures on record.
    #[verifier::type_invariant]
    spec fn inv(self) -> bool {
        one_per_node(self.unabsorbed@)
    }

    /// A gate that opens once every discovered node was observed, or `timeout` from `now` at the
    /// latest if anything reported.
    pub fn new(timeout: Span, now: Timestamp) -> (r: WarmupGate)
        requires
            is_instant(now@ + window_of(timeout@)),
        ensures
            r@ == GateModel::fresh(timeout@, now@),
    {
        let window = Self::effective_window(timeout);
        WarmupGate {
            deadline: now.plus(window),
            window,
            warm: false,
            reported: false,
            unabsorbed: Vec::new(),
        }
    }

    /// The window in force for a configured timeout.
    pub fn effective_window(timeout: Span) -> (r: Span)
        ensures
            r@ == window_of(timeout@),
            timeout@ > 0 ==> r@ == timeout@,
            timeout@ == 0 ==> r@ == 15_000_000_000,
    {
        if timeout.is_zero() {
            Span::from_secs(DEFAULT_WARMUP_TIMEOUT_SECS)
        } else {
            timeout
        }
    }

    /// Rebases the deadline, and the veto window with it, from listener readiness.
    pub fn rebase_deadline(&mut self, now: Timestamp, timeout: Span)
        requires
            is_instant(now@ + window_of(timeout@)),
        ensures
            final(self)@ == old(self)@.rebased(now@, timeout@),
    {
        proof {
            use_type_invariant(&*self);
        }
        let window = Self::effective_window(timeout);
        self.deadline = now.plus(window);
        self.window = window;
    }

    /// Records a heartbeat that nothing absorbs a roster from, and immediately
    /// re-evaluates readiness.
    pub fn reported_in(&mut self, nodes: &Vec<NodeReading>, now: Timestamp)
        ensures
            final(self)@ == old(self)@.after_report(nodes@, now@),
    {
        proof {
            use_type_invariant(&*self);
        }
        self.reported = true;
        self.warmed_up(nodes, now);
    }

    /// Records that `node_id`'s roster reached the binding store.
    pub fn roster_absorbed(&mut self, node_id: &str, nodes: &Vec<NodeReading>, now: Timestamp)
        ensures
            final(self)@ == old(self)@.after_absorbed(node_id@, nodes@, now@),
    {
        self.prune(node_id, now);
        self.reported_in(nodes, now);
    }

    /// Records that `node_id`'s roster did not reach the binding store, stamped with
    /// when the absorption failed rather than when its heartbeat arrived.
    ///
    /// Its sandboxes have no binding to find, so the warm-up gate shuts until a later roster
    /// for that node lands, the node stops being discovered or reporting, or this
    /// stamp falls outside the veto window.
    pub fn roster_not_absorbed(&mut self, node_id: &str, failed_at: Timestamp)
        ensures
            final(self)@ == old(self)@.after_not_absorbed(node_id@, failed_at@),
    {
        self.prune(node_id, failed_at);
        proof {
            use_type_invariant(&*self);
            veto_map_holds(self.unabsorbed@);
            assert forall|i: int| 0 <= i < self.unabsorbed@.len() implies (
            #[trigger] self.unabsorbed@[i]).node_id@ != node_id@ by {
                assert(veto_map(self.unabsorbed@).contains_key(self.unabsorbed@[i].node_id@));
            }
        }
        let ghost before = self.unabsorbed@;
        let mut entries: Vec<Veto> = Vec::new();
        core::mem::swap(&mut entries, &mut self.unabsorbed);
        entries.push(Veto { node_id: node_id.to_owned(), failed_at });
        proof {
            assert(entries@.drop_last() =~= before);
        }
        self.unabsorbed = entries;
    }

    /// The deadline and the window that vetoes are held against.
    fn veto_bounds(&self) -> (r: (Timestamp, Span))
        ensures
            r.0@ == self@.deadline,
            r.1@ == self@.window,
    {
        (self.deadline, self.window)
    }

    /// A stamp holds for one window, renewed by every failing heartbeat, and never
    /// expires before warm-up itself could have opened the warm-up gate.
    pub fn veto_in_force(
        recorded_at: Timestamp,
        deadline: Timestamp,
        window: Span,
        now: Timestamp,
    ) -> (r: bool)
        ensures
            r == in_force(recorded_at@, deadline@, window@, now@),
            r <==> now@ < recorded_at@ + window@ || now@ < deadline@ + window@,
    {
        now.total_nanos() < recorded_at.later_of(deadline).total_nanos() + window.total_nanos()
    }

    /// Drops the failure of `node_id` and every failure that no longer vetoes at `now`.
    fn prune(&mut self, node_id: &str, now: Timestamp)
        ensures
            final(self)@ == (GateModel {
                unabsorbed: only_in_force(
                    old(self)@.unabsorbed.remove(node_id@),
                    old(self)@.deadline,
                    old(self)@.window,
                    now@,
                ),
                ..old(self)@
            }),
    {
        proof {
            use_type_invariant(&*self);
        }
        let (deadline, window) = self.veto_bounds();
        let ghost all = self.unabsorbed@;
        let mut kept: Vec<Veto> = Vec::new();
        let mut i: usize = 0;
        proof {
            assert(all.take(0) =~= Seq::<Veto>::empty());
            assert(veto_map(kept@) =~= only_in_force(
                veto_map(all.take(0)).remove(node_id@),
                deadline@,
                window@,
                now@,
            ));
        }
        while i < self.unabsorbed.len()
            invariant
                i <= self.unabsorbed@.len(),
                all == self.unabsorbed@,
                one_per_node(all),
                one_per_node(kept@),
                forall|j: int|
                    0 <= j < kept@.len() ==> exists|p: int|
                        0 <= p < i && all[p].node_id@ == (#[trigger] kept@[j]).node_id@,
                veto_map(kept@) == only_in_force(
                    veto_map(all.take(i as int)).remove(node_id@),
                    deadline@,
                    window@,
                    now@,
                ),
            decreases self.unabsorbed@.len() - i,
        {
            let entry = &self.unabsorbed[i];
            let ghost before = kept@;
            let ghost seen = all.take(i as int);
            let ghost more = all.take(i as int + 1);
            proof {
                assert(more.drop_last() =~= seen);
                assert(more.last() == all[i as int]);
                assert forall|j: int| 0 <= j < kept@.len() implies (#[trigger] kept@[j]).node_id@
                    != entry.node_id@ by {
                    let p = choose|p: int| 0 <= p < i && all[p].node_id@ == kept@[j].node_id@;
                    assert(all[p].node_id@ != all[i as int].node_id@);
                }
                veto_map_holds(seen);
            }
            let keep: bool = !same_text(entry.node_id.as_str(), node_id) && Self::veto_in_force(
                entry.failed_at,
                deadline,
                window,
                now,
            );
            if keep {
                kept.push(
                    Veto { node_id: entry.node_id.clone(), failed_at: entry.failed_at },
                );
                proof {
                    assert(kept@.drop_last() =~= before);
                    assert forall|j: int| 0 <= j < kept@.len() implies exists|p: int|
                        0 <= p < i + 1 && all[p].node_id@ == (#[trigger] kept@[j]).node_id@ by {
                        if j < before.len() {
                            assert(kept@[j] == before[j]);
                        } else {
                            assert(all[i as int].node_id@ == kept@[j].node_id@);
                        }
                    }
                }
            }
            proof {
                let id = entry.node_id@;
                assert(!veto_map(seen).contains_key(id)) by {
                    if veto_map(seen).contains_key(id) {
                        let p = choose|p: int| 0 <= p < seen.len() && (#[trigger] seen[p]).node_id@ == id;
                        assert(all[p].node_id@ != all[i as int].node_id@);
                    }
                }
                assert(veto_map(kept@) =~= only_in_force(
                    veto_map(more).remove(node_id@),
                    deadline@,
                    window@,
                    now@,
                ));
            }
            i = i + 1;
        }
        proof {
            assert(all.take(i as int) =~= all);
        }
        self.unabsorbed = kept;
    }

    /// A node past its own report TTL holds nothing: this replica can no longer tell
    /// its sandboxes from those of any other node it cannot reach.
    pub fn node_still_reporting(node: &NodeReading) -> (r: bool)
        ensures
            r == still_reporting(*node),
            r <==> node.freshness is Some && !(node.freshness->0 is Stale),
    {
        match node.freshness {
            Some(SnapshotFreshness::Fresh) | Some(SnapshotFreshness::ClockSkew) => true,
            Some(SnapshotFreshness::Stale) | None => false,
        }
    }

    /// When `node_id`'s roster last failed to be absorbed.
    fn failure_of(&self, node_id: &String) -> (r: Option<Timestamp>)
        ensures
            match r {
                Some(at) => self@.unabsorbed.contains_key(node_id@) && self@.unabsorbed[node_id@]
                    == at@,
                None => !self@.unabsorbed.contains_key(node_id@),
            },
    {
        proof {
            use_type_invariant(self);
            veto_map_holds(self.unabsorbed@);
        }
        let mut i: usize = 0;
        while i < self.unabsorbed.len()
            invariant
                i <= self.unabsorbed@.len(),
                forall|j: int|
                    0 <= j < i ==> (#[trigger] self.unabsorbed@[j]).node_id@ != node_id@,
                forall|j: int|
                    0 <= j < self.unabsorbed@.len() ==> #[trigger] veto_map(
                        self.unabsorbed@,
                    ).contains_key(self.unabsorbed@[j].node_id@) && veto_map(
                        self.unabsorbed@,
                    )[self.unabsorbed@[j].node_id@] == self.unabsorbed@[j].failed_at@,
            decreases self.unabsorbed@.len() - i,
        {
            if self.unabsorbed[i].node_id == *node_id {
                assert(veto_map(self.unabsorbed@).contains_key(
                    self.unabsorbed@[i as int].node_id@,
                ));
                return Some(self.unabsorbed[i].failed_at);
            }
            i = i + 1;
        }
        None
    }

    /// Whether a discovered node that still reports has a roster that was not absorbed.
    pub fn holds_an_unabsorbed_roster(&self, nodes: &Vec<NodeReading>, now: Timestamp) -> (r: bool)
        ensures
            r == self@.vetoed(nodes@, now@),
    {
        let (deadline, window) = self.veto_bounds();
        let mut i: usize = 0;
        while i < nodes.len()
            invariant
                i <= nodes@.len(),
                deadline@ == self@.deadline,
                window@ == self@.window,
                forall|j: int|
                    0 <= j < i ==> !(self@.unabsorbed.contains_key((#[trigger] nodes@[j]).node_id@)
                        && in_force(
                        self@.unabsorbed[nodes@[j].node_id@],
                        self@.deadline,
                        self@.window,
                        now@,
                    ) && still_reporting(nodes@[j])),
            decreases nodes@.len() - i,
        {
            if let Some(at) = self.failure_of(&nodes[i].node_id) {
                if Self::veto_in_force(at, deadline, window, now) && Self::node_still_reporting(
                    &nodes[i],
                ) {
                    assert(self@.unabsorbed.contains_key(nodes@[i as int].node_id@));
                    return true;
                }
            }
            i = i + 1;
        }
        false
    }

    /// Returns whether a binding miss may be reported as absent.
    ///
    /// `nodes` are the schedulable discovered nodes; lingering ones may never heartbeat again and
    /// do not count. A deadline opens only after at least one heartbeat has arrived.
    pub fn warmed_up(&mut self, nodes: &Vec<NodeReading>, now: Timestamp) -> (r: bool)
        ensures
            r == old(self)@.open(nodes@, now@),
            final(self)@ == old(self)@.asked(nodes@, now@),
    {
        proof {
            use_type_invariant(&*self);
        }
        if self.holds_an_unabsorbed_roster(nodes, now) {
            return false;
        }
        if self.warm {
            return true;
        }
        let mut every: bool = true;
        let mut i: usize = 0;
        while i < nodes.len()
            invariant
                i <= nodes@.len(),
                every == (forall|j: int| 0 <= j < i ==> (#[trigger] nodes@[j]).observed),
            decreases nodes@.len() - i,
        {
            if !nodes[i].observed {
                every = false;
            }
            i = i + 1;
        }
        if nodes.len() > 0 && every {
            self.warm = true;
            return true;
        }
        // Only the deadline still needs a report: it must not let a registry that
        // has heard nothing declare every runtime gone.
        if !self.reported {
            return false;
        }
        if !now.before(self.deadline) {
            self.warm = true;
            return true;
        }
        false
    }
}

/// The latch is one-way: nothing that happens to the warm-up gate makes it cold again, and a warm
/// gate is shut by nothing but an unabsorbed roster.
pub proof fn warm_gates_stay_warm(
    g: GateModel,
    node_id: Seq<char>,
    nodes: Seq<NodeReading>,
    now: int,
    timeout: int,
)
    requires
        g.warm,
    ensures
        g.open(nodes, now) <==> !g.vetoed(nodes, now),
        g.asked(nodes, now).warm,
        g.after_report(nodes, now).warm,
        g.after_absorbed(node_id, nodes, now).warm,
        g.after_not_absorbed(node_id, now).warm,
        g.rebased(now, timeout).warm,
{
}

/// A registry that has heard nothing does not declare runtimes gone, however late it is: without
/// a report the warm-up gate opens only on observation of every discovered node, of which there is
/// one.
pub proof fn silence_opens_nothing(g: GateModel, nodes: Seq<NodeReading>, now: int)
    requires
        !g.warm,
        !g.reported,
        nodes.len() == 0 || exists|i: int| 0 <= i < nodes.len() && !(#[trigger] nodes[i]).observed,
    ensures
        !g.open(nodes, now),
{
}

/// Once something has reported, the deadline opens the warm-up gate, unless a roster is unabsorbed.
pub proof fn deadline_opens_after_a_report(g: GateModel, nodes: Seq<NodeReading>, now: int)
    requires
        g.reported,
        now >= g.deadline,
        !g.vetoed(nodes, now),
    ensures
        g.open(nodes, now),
{
}

/// A failure shuts the warm-up gate, warm or not, while the node is discovered and still reports,
/// for one window after the failure and never less than one window past the deadline.
pub proof fn failure_shuts_the_gate(
    g: GateModel,
    node_id: Seq<char>,
    failed_at: int,
    nodes: Seq<NodeReading>,
    i: int,
    now: int,
)
    requires
        0 <= i < nodes.len(),
        nodes[i].node_id@ == node_id,
        still_reporting(nodes[i]),
        now < later(failed_at, g.deadline) + g.window,
    ensures
        !g.after_not_absorbed(node_id, failed_at).open(nodes, now),
{
    let h = g.after_not_absorbed(node_id, failed_at);
    assert(h.unabsorbed.contains_key(nodes[i].node_id@));
    assert(h.vetoed(nodes, now));
}

/// A veto does not outlive its window: once one window has passed since the last failure of every
/// node, and since the deadline, nothing vetoes.
pub proof fn vetoes_expire(g: GateModel, nodes: Seq<NodeReading>, now: int)
    requires
        now >= g.deadline + g.window,
        forall|id: Seq<char>| #[trigger]
            g.unabsorbed.contains_key(id) ==> now >= g.unabsorbed[id] + g.window,
    ensures
        !g.vetoed(nodes, now),
{
}

/// A node that left discovery, or that stopped reporting, holds nothing shut: without a
/// discovered node that reports and failed, the warm-up gate is as open as warm-up makes it.
pub proof fn silent_nodes_veto_nothing(g: GateModel, nodes: Seq<NodeReading>, now: int)
    requires
        forall|i: int|
            0 <= i < nodes.len() && g.unabsorbed.contains_key((#[trigger] nodes[i]).node_id@)
                ==> !still_reporting(nodes[i]),
    ensures
        g.open(nodes, now) <==> g.complete(nodes, now),
{
}

/// An absorbed roster lifts its node's veto and counts as a report, and it brings no other veto.
pub proof fn absorption_lifts_the_veto(
    g: GateModel,
    node_id: Seq<char>,
    nodes: Seq<NodeReading>,
    now: int,
)
    ensures
        !g.after_absorbed(node_id, nodes, now).unabsorbed.contains_key(node_id),
        g.after_absorbed(node_id, nodes, now).reported,
        forall|id: Seq<char>| #[trigger]
            g.after_absorbed(node_id, nodes, now).unabsorbed.contains_key(id)
                ==> g.unabsorbed.contains_key(id) && g.after_absorbed(
                node_id,
                nodes,
                now,
            ).unabsorbed[id] == g.unabsorbed[id],
{
}

/// Dropping failures that no longer veto changes no later answer.
pub proof fn pruning_changes_no_answer(
    g: GateModel,
    pruned_at: int,
    nodes: Seq<NodeReading>,
    now: int,
)
    requires
        pruned_at <= now,
    ensures
        g.vetoed(nodes, now) <==> (GateModel {
            unabsorbed: only_in_force(g.unabsorbed, g.deadline, g.window, pruned_at),
            ..g
        }).vetoed(nodes, now),
{
    let h = GateModel {
        unabsorbed: only_in_force(g.unabsorbed, g.deadline, g.window, pruned_at),
        ..g
    };
    if g.vetoed(nodes, now) {
        let i = choose|i: int|
            0 <= i < nodes.len() && g.unabsorbed.contains_key((#[trigger] nodes[i]).node_id@)
                && in_force(g.unabsorbed[nodes[i].node_id@], g.deadline, g.window, now)
                && still_reporting(nodes[i]);
        assert(h.unabsorbed.contains_key(nodes[i].node_id@));
    }
    if h.vetoed(nodes, now) {
        let i = choose|i: int|
            0 <= i < nodes.len() && h.unabsorbed.contains_key((#[trigger] nodes[i]).node_id@)
                && in_force(h.unabsorbed[nodes[i].node_id@], h.deadline, h.window, now)
                && still_reporting(nodes[i]);
        assert(g.unabsorbed.contains_key(nodes[i].node_id@));
    }
}

/// The window is what is configured, or fifteen seconds where nothing is; a gate starts cold and
/// silent, with its deadline one window away, and a rebase counts both from its own instant.
pub proof fn gates_start_cold(g: GateModel, timeout: int, now: int)
    ensures
        timeout > 0 ==> window_of(timeout) == timeout,
        timeout <= 0 ==> window_of(timeout) == 15_000_000_000,
        ({
            let f = GateModel::fresh(timeout, now);
            !f.warm && !f.reported && f.unabsorbed == Map::<Seq<char>, int>::empty() && f.window
                == window_of(timeout) && f.deadline - now == f.window
        }),
        ({
            let h = g.rebased(now, timeout);
            h.window == window_of(timeout) && h.deadline - now == h.window && h.warm == g.warm
                && h.reported == g.reported && h.unabsorbed == g.unabsorbed
        }),
{
}

/// A failure vetoes for one window after it, and for one window after the deadline, and no longer.
pub proof fn failures_veto_for_one_window(recorded_at: int, deadline: int, window: int, now: int)
    ensures
        in_force(recorded_at, deadline, window, now) <==> now < recorded_at + window || now < deadline
            + window,
{
}

/// A node still reports while it has a report that is not stale.
pub proof fn reports_count_until_stale(n: NodeReading)
    ensures
        still_reporting(n) <==> n.freshness is Some && !(n.freshness->0 is Stale),
{
}

/// A miss is absence only for a reason: warm-up ended before, or every discovered node was observed
/// and there is one, or something reported and the deadline is here. And it is not while a
/// discovered, reporting node has a failure on record from within a window, or the deadline is not
/// one window past.
pub proof fn absence_needs_a_reason(g: GateModel, nodes: Seq<NodeReading>, now: int)
    ensures
        g.open(nodes, now) ==> g.warm || (nodes.len() > 0 && forall|i: int|
            0 <= i < nodes.len() ==> (#[trigger] nodes[i]).observed) || (g.reported && now
            >= g.deadline),
        forall|i: int|
            0 <= i < nodes.len() && g.unabsorbed.contains_key((#[trigger] nodes[i]).node_id@)
                && nodes[i].freshness is Some && !(nodes[i].freshness->0 is Stale) && (now
                < g.unabsorbed[nodes[i].node_id@] + g.window || now < g.deadline + g.window)
                ==> !g.open(nodes, now),
{
    assert forall|i: int|
        0 <= i < nodes.len() && g.unabsorbed.contains_key((#[trigger] nodes[i]).node_id@)
            && nodes[i].freshness is Some && !(nodes[i].freshness->0 is Stale) && (now
            < g.unabsorbed[nodes[i].node_id@] + g.window || now < g.deadline
            + g.window) implies !g.open(nodes, now) by {
        assert(still_reporting(nodes[i]));
        assert(g.vetoed(nodes, now));
    }
}

/// A miss is absence wherever there is a reason and nothing vetoes it.
pub proof fn a_reason_is_enough(g: GateModel, nodes: Seq<NodeReading>, now: int)
    requires
        g.warm || (nodes.len() > 0 && forall|i: int|
            0 <= i < nodes.len() ==> (#[trigger] nodes[i]).observed) || (g.reported && now
            >= g.deadline),
        forall|i: int|
            0 <= i < nodes.len() && g.unabsorbed.contains_key((#[trigger] nodes[i]).node_id@)
                ==> nodes[i].freshness is None || nodes[i].freshness->0 is Stale || (now
                >= g.unabsorbed[nodes[i].node_id@] + g.window && now >= g.deadline + g.window),
    ensures
        g.open(nodes, now),
{
}

/// Each step of the warm-up gate writes what it is about: an answer only latches, a report is
/// remembered, a failure is stamped with its own instant and is no report, and neither drops a
/// failure of another node that still vetoes. Deadline and window stay.
pub proof fn steps_write_what_they_are_about(
    g: GateModel,
    node_id: Seq<char>,
    other: Seq<char>,
    nodes: Seq<NodeReading>,
    now: int,
)
    ensures
        ({
            let h = g.asked(nodes, now);
            h.deadline == g.deadline && h.window == g.window && h.reported == g.reported
                && h.unabsorbed == g.unabsorbed && (h.warm <==> g.warm || g.open(nodes, now))
        }),
        ({
            let h = g.after_report(nodes, now);
            h.deadline == g.deadline && h.window == g.window && h.reported && h.unabsorbed
                == g.unabsorbed && (now >= g.deadline && !g.vetoed(nodes, now) ==> h.warm)
        }),
        ({
            let h = g.after_not_absorbed(node_id, now);
            h.deadline == g.deadline && h.window == g.window && h.reported == g.reported && h.warm
                == g.warm && h.unabsorbed.contains_key(node_id) && h.unabsorbed[node_id] == now && (
            other != node_id && g.unabsorbed.contains_key(other) && (now < g.unabsorbed[other]
                + g.window || now < g.deadline + g.window) ==> h.unabsorbed.contains_key(other)
                && h.unabsorbed[other] == g.unabsorbed[other]) && (other != node_id
                && !g.unabsorbed.contains_key(other) ==> !h.unabsorbed.contains_key(other))
        }),
        ({
            let h = g.after_absorbed(node_id, nodes, now);
            h.deadline == g.deadline && h.window == g.window && h.reported
                && !h.unabsorbed.contains_key(node_id) && (other != node_id
                && g.unabsorbed.contains_key(other) && (now < g.unabsorbed[other] + g.window || now
                < g.deadline + g.window) ==> h.unabsorbed.contains_key(other) && h.unabsorbed[other]
                == g.unabsorbed[other])
        }),
{
}

} // verus!
