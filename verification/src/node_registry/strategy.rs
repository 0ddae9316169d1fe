//! Concrete round-robin node placement.

use crate::node_registry::types::{RichNode, ScheduleRequestHint};
use vstd::prelude::*;
use vstd::string::*;

verus! {

/// Empty-candidate error whose text is returned over the scheduler wire contract.
#[derive(Debug, Clone, Copy, PartialEq, Eq, Structural)]
pub struct NoNodesAvailable;

impl NoNodesAvailable {
    /// The error's text.
    pub fn message(&self) -> (r: &'static str)
        ensures
            r@ == "no nodes available"@,
    {
        "no nodes available"
    }
}

/// Stable strategy metric-label value.
pub const ROUND_ROBIN_NAME: &'static str = "round_robin";

/// Advances one shared cursor through candidates in order.
///
/// Schedule and paused lookup must share an instance to share rotation.
#[derive(Debug)]
pub struct RoundRobinStrategy {
    next: u64,
}

/// The candidate that the cursor `next` picks out of `n`.
pub open spec fn picked(next: u64, n: nat) -> int {
    next as int % n as int
}

/// The cursor after one selection; wrapping is harmless because selection is modulo the number of
/// candidates.
pub open spec fn advanced(next: u64) -> u64 {
    if next == u64::MAX {
        0
    } else {
        (next + 1) as u64
    }
}

impl View for RoundRobinStrategy {
    type V = u64;

    /// The cursor.
    closed spec fn view(&self) -> u64 {
        self.next
    }
}

impl Default for RoundRobinStrategy {
    fn default() -> (r: RoundRobinStrategy)
        ensures
            r@ == 0,
    {
        RoundRobinStrategy { next: 0 }
    }
}

impl RoundRobinStrategy {
    /// A strategy that starts with the first candidate.
    pub fn new() -> (r: RoundRobinStrategy)
        ensures
            r@ == 0,
    {
        RoundRobinStrategy { next: 0 }
    }

    /// Selects one candidate; round-robin ignores the request hint.
    pub fn select(&mut self, nodes: &[RichNode], _hint: Option<&ScheduleRequestHint>) -> (r: Result<
        RichNode,
        NoNodesAvailable,
    >)
        ensures
            nodes@.len() == 0 ==> r == Err::<RichNode, _>(NoNodesAvailable) && final(self)@ == old(
                self,
            )@,
            nodes@.len() > 0 ==> r == Ok::<_, NoNodesAvailable>(
                nodes@[picked(old(self)@, nodes@.len())],
            ) && final(self)@ == advanced(old(self)@),
            nodes@.len() > 0 ==> r == Ok::<_, NoNodesAvailable>(
                nodes@[old(self)@ as int % nodes@.len() as int],
            ) && (old(self)@ < u64::MAX ==> final(self)@ == old(self)@ + 1) && (old(self)@
                == u64::MAX ==> final(self)@ == 0),
    {
        if nodes.len() == 0 {
            return Err(NoNodesAvailable);
        }
        let at: u64 = self.next;
        self.next = at.wrapping_add(1);
        let index: usize = (at % (nodes.len() as u64)) as usize;
        Ok(nodes[index].clone())
    }

    /// The strategy's metric-label value.
    pub fn name(&self) -> (r: &'static str)
        ensures
            r@ == ROUND_ROBIN_NAME@,
            r@ == "round_robin"@,
    {
        ROUND_ROBIN_NAME
    }
}

/// The cursor after `k` selections.
pub open spec fn advanced_by(next: u64, k: nat) -> u64
    decreases k,
{
    if k == 0 {
        next
    } else {
        advanced(advanced_by(next, (k - 1) as nat))
    }
}

proof fn advanced_by_adds(next: u64, k: nat)
    requires
        next + k <= u64::MAX,
    ensures
        advanced_by(next, k) == next + k,
    decreases k,
{
    if k > 0 {
        advanced_by_adds(next, (k - 1) as nat);
    }
}

/// Whether one of `n` selections from the cursor `next` picks candidate `i` of `n`.
pub open spec fn rotation_visits(next: u64, n: nat, i: int) -> bool {
    exists|k: nat| k < n && #[trigger] picked(advanced_by(next, k), n) == i
}

/// As many selections as there are candidates visit every candidate once, from wherever the
/// cursor stands (short of the one wrap of the cursor itself).
pub proof fn a_full_rotation_visits_every_candidate(next: u64, n: nat)
    requires
        0 < n,
        next + n <= u64::MAX,
    ensures
        forall|i: int| 0 <= i < n ==> #[trigger] rotation_visits(next, n, i),
        forall|j: nat, k: nat|
            j < k < n ==> #[trigger] picked(advanced_by(next, j), n) != #[trigger] picked(
                advanced_by(next, k),
                n,
            ),
{
    assert forall|i: int| 0 <= i < n implies #[trigger] rotation_visits(next, n, i) by {
        let start = next as int % n as int;
        let k: nat = if i >= start {
            (i - start) as nat
        } else {
            (i - start + n) as nat
        };
        advanced_by_adds(next, k);
        rotation(next as int, k as int, n as int);
        assert(picked(advanced_by(next, k), n) == i);
    }
    assert forall|j: nat, k: nat| j < k < n implies #[trigger] picked(advanced_by(next, j), n)
        != #[trigger] picked(advanced_by(next, k), n) by {
        advanced_by_adds(next, j);
        advanced_by_adds(next, k);
        rotation(next as int, j as int, n as int);
        rotation(next as int, k as int, n as int);
    }
}

proof fn rotation(a: int, k: int, n: int)
    requires
        0 <= a,
        0 <= k < n,
    ensures
        (a + k) % n == if a % n + k < n {
            a % n + k
        } else {
            a % n + k - n
        },
{
    let q = a / n;
    let r = a % n;
    vstd::arithmetic::div_mod::lemma_fundamental_div_mod(a, n);
    if r + k < n {
        vstd::arithmetic::div_mod::lemma_fundamental_div_mod_converse(a + k, n, q, r + k);
    } else {
        assert(n * q + r + k == n * (q + 1) + (r + k - n)) by (nonlinear_arith);
        vstd::arithmetic::div_mod::lemma_fundamental_div_mod_converse(a + k, n, q + 1, r + k - n);
    }
}

/// A fresh cursor picks the first candidate. Two selections in a row pick neighbours: the second
/// picks the candidate behind the first one's, or the first candidate behind the last (short of the
/// one wrap of the cursor itself).
pub proof fn selections_in_a_row_pick_neighbours(next: u64, n: nat)
    requires
        0 < n,
    ensures
        picked(0, n) == 0,
        0 <= picked(next, n) < n,
        next < u64::MAX && picked(next, n) + 1 < n ==> picked(advanced(next), n) == picked(next, n)
            + 1,
        next < u64::MAX && picked(next, n) + 1 == n ==> picked(advanced(next), n) == 0,
        next < u64::MAX ==> advanced(next) == next + 1,
        advanced(u64::MAX) == 0,
{
    if n > 1 {
        rotation(next as int, 1, n as int);
    }
}

} // verus!
