//! Scriptable without-replacement sampling for shadow placement.

use vstd::prelude::*;

verus! {

/// Produces an index into the current nonempty shrinking pool without panicking.
pub trait ShadowRng: Sized {
    /// Whether a generator in this state may draw `r` below `n` and be left in the state `next`.
    spec fn may_draw(&self, n: usize, r: usize, next: &Self) -> bool;

    fn index_below(&mut self, n: usize) -> (r: usize)
        ensures
            old(self).may_draw(n, r, final(self)),
    ;
}

/// Lock-free thread-local production sampler.
#[derive(Debug, Clone, Copy)]
pub struct ThreadShadowRng;

impl Default for ThreadShadowRng {
    fn default() -> (r: ThreadShadowRng) {
        ThreadShadowRng
    }
}

/// `random_range` of `rand`'s thread-local generator on `0..n`: some index below `n`, whichever
/// comes. The generator is seeded by the system, and nothing more can be said of what it draws.
#[verifier::external_body]
fn random_below(n: usize) -> (r: usize)
    requires
        n > 0,
    ensures
        r < n,
{
    rand::RngExt::random_range(&mut rand::rng(), 0..n)
}

impl ShadowRng for ThreadShadowRng {
    /// Any index below `n`, and zero where there is none or no choice.
    open spec fn may_draw(&self, n: usize, r: usize, next: &ThreadShadowRng) -> bool {
        if n <= 1 {
            r == 0
        } else {
            r < n
        }
    }

    fn index_below(&mut self, n: usize) -> (r: usize) {
        if n <= 1 {
            return 0;
        }
        random_below(n)
    }
}

/// Total scripted draw sequence used to pin test sample order.
#[derive(Debug)]
pub struct ScriptedRng {
    draws: Vec<usize>,
    next: usize,
}

impl Default for ScriptedRng {
    fn default() -> (r: ScriptedRng)
        ensures
            r.script().len() == 0,
            r.drawn() == 0,
    {
        ScriptedRng { draws: Vec::new(), next: 0 }
    }
}

impl Clone for ScriptedRng {
    fn clone(&self) -> (r: ScriptedRng)
        ensures
            r.script() == self.script(),
            r.drawn() == self.drawn(),
    {
        let draws = self.draws.clone();
        assert(draws@ =~= self.draws@);
        ScriptedRng { draws, next: self.next }
    }
}

impl ScriptedRng {
    /// The script.
    pub closed spec fn script(&self) -> Seq<usize> {
        self.draws@
    }

    /// How many draws were made.
    pub closed spec fn drawn(&self) -> nat {
        self.next as nat
    }

    /// A generator at the start of its script.
    pub fn new(draws: Vec<usize>) -> (r: ScriptedRng)
        ensures
            r.script() == draws@,
            r.drawn() == 0,
    {
        ScriptedRng { draws, next: 0 }
    }

    /// Goes back to the start of the script.
    pub fn reset(&mut self)
        ensures
            final(self).script() == old(self).script(),
            final(self).drawn() == 0,
    {
        self.next = 0;
    }
}

/// The draw number `i` of a script: zero once it has run out.
pub open spec fn scripted(script: Seq<usize>, i: nat) -> usize {
    if i < script.len() {
        script[i as int]
    } else {
        0
    }
}

impl ShadowRng for ScriptedRng {
    /// The next draw of the script, modulo `n`; an empty pool takes none.
    open spec fn may_draw(&self, n: usize, r: usize, next: &ScriptedRng) -> bool {
        &&& next.script() == self.script()
        &&& if n == 0 {
            r == 0 && next.drawn() == self.drawn()
        } else {
            &&& r == scripted(self.script(), self.drawn()) % n
            &&& next.drawn() == if self.drawn() == usize::MAX {
                self.drawn()
            } else {
                self.drawn() + 1
            }
        }
    }

    fn index_below(&mut self, n: usize) -> (r: usize) {
        if n == 0 {
            return 0;
        }
        let draw: usize = if self.next < self.draws.len() {
            self.draws[self.next]
        } else {
            0
        };
        self.next = self.next.saturating_add(1);
        draw % n
    }
}

/// The pool `0..n`.
pub open spec fn full_pool(n: nat) -> Seq<usize> {
    Seq::new(n, |i: int| i as usize)
}

/// A draw held within a pool of `n`.
pub open spec fn held(draw: usize, n: nat) -> int {
    if draw < n {
        draw as int
    } else {
        n - 1
    }
}

/// What is left of a pool after the draws: each takes one member out.
pub open spec fn pool_after(pool: Seq<usize>, draws: Seq<usize>) -> Seq<usize>
    decreases draws.len(),
{
    if draws.len() == 0 {
        pool
    } else {
        let rest = pool_after(pool, draws.drop_last());
        rest.remove(held(draws.last(), rest.len()))
    }
}

/// What the draws take out of a pool, in order.
pub open spec fn sampled(pool: Seq<usize>, draws: Seq<usize>) -> Seq<usize>
    decreases draws.len(),
{
    if draws.len() == 0 {
        Seq::empty()
    } else {
        let rest = pool_after(pool, draws.drop_last());
        sampled(pool, draws.drop_last()).push(rest[held(draws.last(), rest.len())])
    }
}

/// `draws` may come out of a generator that starts as `states[0]` and samples from a pool of `n`:
/// each is drawn below the size of what is left.
pub open spec fn may_draw_all<R: ShadowRng>(states: Seq<R>, draws: Seq<usize>, n: nat) -> bool {
    &&& states.len() == draws.len() + 1
    &&& forall|i: int|
        0 <= i < draws.len() ==> (#[trigger] states[i]).may_draw(
            (n - i) as usize,
            draws[i],
            &states[i + 1],
        )
}

/// Draws `min(k, n)` distinct ordered-pool indices without replacement.
///
/// A generator that draws outside the pool is held within it.
pub fn sample_without_replacement<R: ShadowRng>(n: usize, k: u32, rng: &mut R) -> (r: Vec<usize>)
    ensures
        exists|states: Seq<R>, draws: Seq<usize>|
            {
                &&& #[trigger] may_draw_all(states, draws, n as nat)
                &&& states.first() == *old(rng)
                &&& states.last() == *final(rng)
                &&& draws.len() == if (k as int) < n {
                    k as int
                } else {
                    n as int
                }
                &&& r@ == sampled(full_pool(n as nat), draws)
            },
{
    let ghost mut states: Seq<R> = seq![*rng];
    let ghost mut draws: Seq<usize> = Seq::empty();
    let wanted: u64 = k as u64;
    let take: usize = if wanted < n as u64 {
        wanted as usize
    } else {
        n
    };
    let mut pool: Vec<usize> = Vec::new();
    let mut i: usize = 0;
    while i < n
        invariant
            i <= n,
            pool@ == full_pool(i as nat),
        decreases n - i,
    {
        pool.push(i);
        proof {
            assert(pool@ =~= full_pool(i as nat + 1));
        }
        i = i + 1;
    }
    let mut out: Vec<usize> = Vec::new();
    let mut done: usize = 0;
    while done < take
        invariant
            done <= take <= n,
            draws.len() == done,
            may_draw_all(states, draws, n as nat),
            states.first() == *old(rng),
            states.last() == *rng,
            pool@ == pool_after(full_pool(n as nat), draws),
            pool@.len() == n - done,
            out@ == sampled(full_pool(n as nat), draws),
        decreases take - done,
    {
        let ghost before = *rng;
        let size: usize = pool.len();
        let draw: usize = rng.index_below(size);
        // Preserve shadow infallibility even for a misbehaving generator.
        let slot: usize = if draw < size {
            draw
        } else {
            size - 1
        };
        let picked: usize = pool.remove(slot);
        out.push(picked);
        proof {
            let states0 = states;
            let draws0 = draws;
            states = states.push(*rng);
            draws = draws.push(draw);
            assert(draws.drop_last() =~= draws0);
            assert forall|i: int| 0 <= i < draws.len() implies (#[trigger] states[i]).may_draw(
                (n - i) as usize,
                draws[i],
                &states[i + 1],
            ) by {
                if i < draws0.len() {
                    assert(states0[i].may_draw((n - i) as usize, draws0[i], &states0[i + 1]));
                } else {
                    assert(states[i] == before);
                }
            }
        }
        done = done + 1;
    }
    proof {
        assert(may_draw_all(states, draws, n as nat));
    }
    out
}

proof fn sampling_keeps_members(pool: Seq<usize>, draws: Seq<usize>)
    requires
        draws.len() <= pool.len(),
        pool.no_duplicates(),
    ensures
        pool_after(pool, draws).len() == pool.len() - draws.len(),
        sampled(pool, draws).len() == draws.len(),
        pool_after(pool, draws).no_duplicates(),
        sampled(pool, draws).no_duplicates(),
        forall|x: usize| #[trigger]
            pool.contains(x) <==> pool_after(pool, draws).contains(x) || sampled(
                pool,
                draws,
            ).contains(x),
        forall|x: usize|
            !(#[trigger] pool_after(pool, draws).contains(x) && sampled(pool, draws).contains(x)),
    decreases draws.len(),
{
    if draws.len() > 0 {
        let d0 = draws.drop_last();
        sampling_keeps_members(pool, d0);
        let rest = pool_after(pool, d0);
        let taken = sampled(pool, d0);
        let at = held(draws.last(), rest.len());
        let left = pool_after(pool, draws);
        let all = sampled(pool, draws);
        assert(left =~= rest.remove(at));
        assert(all =~= taken.push(rest[at]));
        assert forall|x: usize| #[trigger] rest.contains(x) <==> left.contains(x) || x
            == rest[at] by {
            if rest.contains(x) {
                let i = choose|i: int| 0 <= i < rest.len() && rest[i] == x;
                if i < at {
                    assert(left[i] == x);
                } else if i > at {
                    assert(left[i - 1] == x);
                }
            }
            if left.contains(x) {
                let i = choose|i: int| 0 <= i < left.len() && left[i] == x;
                let o = if i < at { i } else { i + 1 };
                assert(rest[o] == x);
            }
            assert(rest.contains(rest[at]));
        }
        assert(!left.contains(rest[at])) by {
            if left.contains(rest[at]) {
                let i = choose|i: int| 0 <= i < left.len() && left[i] == rest[at];
                let o = if i < at { i } else { i + 1 };
                assert(rest[o] == rest[at]);
            }
        }
        assert forall|x: usize| #[trigger] all.contains(x) <==> taken.contains(x) || x
            == rest[at] by {
            if all.contains(x) {
                let i = choose|i: int| 0 <= i < all.len() && all[i] == x;
                if i < taken.len() {
                    assert(taken[i] == x);
                }
            }
            if taken.contains(x) {
                let i = choose|i: int| 0 <= i < taken.len() && taken[i] == x;
                assert(all[i] == x);
            }
            assert(all[taken.len() as int] == rest[at]);
        }
        assert forall|x: usize| !(#[trigger] left.contains(x) && all.contains(x)) by {
            assert(rest.contains(x) <==> left.contains(x) || x == rest[at]);
            assert(all.contains(x) <==> taken.contains(x) || x == rest[at]);
        }
        assert forall|x: usize| #[trigger] pool.contains(x) <==> left.contains(x)
            || all.contains(x) by {
            assert(rest.contains(x) <==> left.contains(x) || x == rest[at]);
            assert(all.contains(x) <==> taken.contains(x) || x == rest[at]);
            assert(rest.contains(rest[at]));
        }
        assert forall|i: int, j: int| 0 <= i < j < left.len() implies left[i] != left[j] by {
            let oi = if i < at { i } else { i + 1 };
            let oj = if j < at { j } else { j + 1 };
            assert(left[i] == rest[oi] && left[j] == rest[oj]);
        }
        assert forall|i: int, j: int| 0 <= i < j < all.len() implies all[i] != all[j] by {
            assert(rest.contains(rest[at]));
            if j == taken.len() {
                assert(taken.contains(taken[i]));
            }
        }
    }
}

/// Whatever a generator draws, a sample of `min(k, n)` indices is distinct and below `n`.
pub proof fn samples_are_distinct_pool_members(n: nat, draws: Seq<usize>)
    requires
        draws.len() <= n <= usize::MAX,
    ensures
        sampled(full_pool(n), draws).len() == draws.len(),
        sampled(full_pool(n), draws).no_duplicates(),
        forall|i: int|
            0 <= i < draws.len() ==> (#[trigger] sampled(full_pool(n), draws)[i]) < n,
{
    let pool = full_pool(n);
    assert(pool.no_duplicates());
    sampling_keeps_members(pool, draws);
    let all = sampled(pool, draws);
    assert forall|i: int| 0 <= i < draws.len() implies #[trigger] all[i] < n by {
        assert(all.contains(all[i]));
        assert(pool.contains(all[i]));
    }
}

/// A scripted generator at the start of its script draws the script, each draw modulo what is
/// left of the pool.
pub proof fn scripted_draws_follow_the_script(
    states: Seq<ScriptedRng>,
    draws: Seq<usize>,
    n: nat,
    i: int,
)
    requires
        may_draw_all(states, draws, n),
        draws.len() <= n <= usize::MAX,
        states[0].drawn() == 0,
        0 <= i < draws.len(),
    ensures
        draws[i] == scripted(states[0].script(), i as nat) % ((n - i) as usize),
{
    scripted_state(states, draws, n, i);
    assert(states[i].may_draw((n - i) as usize, draws[i], &states[i + 1]));
}

proof fn scripted_state(states: Seq<ScriptedRng>, draws: Seq<usize>, n: nat, i: int)
    requires
        may_draw_all(states, draws, n),
        draws.len() <= n <= usize::MAX,
        states[0].drawn() == 0,
        0 <= i <= draws.len(),
    ensures
        states[i].script() == states[0].script(),
        states[i].drawn() == i,
    decreases i,
{
    if i > 0 {
        scripted_state(states, draws, n, i - 1);
        assert(states[i - 1].may_draw((n - (i - 1)) as usize, draws[i - 1], &states[i]));
    }
}

proof fn pools_stay_in_order(n: nat, draws: Seq<usize>)
    requires
        draws.len() <= n <= usize::MAX,
    ensures
        pool_after(full_pool(n), draws).len() == n - draws.len(),
        forall|i: int, j: int|
            0 <= i < j < n - draws.len() ==> (#[trigger] pool_after(full_pool(n), draws)[i]) < (
            #[trigger] pool_after(full_pool(n), draws)[j]),
    decreases draws.len(),
{
    if draws.len() > 0 {
        let d0 = draws.drop_last();
        pools_stay_in_order(n, d0);
        let rest = pool_after(full_pool(n), d0);
        let at = held(draws.last(), rest.len());
        let left = pool_after(full_pool(n), draws);
        assert(left =~= rest.remove(at));
        assert forall|i: int, j: int| 0 <= i < j < n - draws.len() implies (#[trigger] left[i]) < (
        #[trigger] left[j]) by {
            let oi = if i < at { i } else { i + 1 };
            let oj = if j < at { j } else { j + 1 };
            assert(left[i] == rest[oi] && left[j] == rest[oj]);
        }
    }
}

/// The draw `d` takes that one of the indices not sampled yet which has `d` smaller ones among
/// them: `left` is those indices in ascending order, and the sample goes on with the one at `d`, or
/// with the last one where there are not so many.
pub proof fn draws_count_what_is_left(n: nat, draws: Seq<usize>, d: usize, left: Seq<usize>)
    requires
        draws.len() < n <= usize::MAX,
        left.len() == n - draws.len(),
        forall|i: int, j: int| 0 <= i < j < left.len() ==> left[i] < left[j],
        forall|x: usize|
            #[trigger] left.contains(x) <==> x < n && !sampled(full_pool(n), draws).contains(x),
    ensures
        sampled(full_pool(n), Seq::empty()).len() == 0,
        d < left.len() ==> sampled(full_pool(n), draws.push(d)) == sampled(
            full_pool(n),
            draws,
        ).push(left[d as int]),
        d >= left.len() ==> sampled(full_pool(n), draws.push(d)) == sampled(
            full_pool(n),
            draws,
        ).push(left.last()),
{
    let pool = full_pool(n);
    let rest = pool_after(pool, draws);
    assert(pool.no_duplicates());
    sampling_keeps_members(pool, draws);
    pools_stay_in_order(n, draws);
    assert forall|x: usize| #[trigger] pool.contains(x) <==> x < n by {
        if x < n {
            assert(pool[x as int] == x);
        }
    }
    assert forall|x: usize| left.contains(x) <==> #[trigger] rest.contains(x) by {
        assert(pool.contains(x) <==> x < n);
        assert(left.contains(x) <==> x < n && !sampled(pool, draws).contains(x));
    }
    ascending_members_agree(left, rest);
    assert(draws.push(d).drop_last() =~= draws);
    assert(draws.push(d).last() == d);
}

proof fn ascending_members_agree(a: Seq<usize>, b: Seq<usize>)
    requires
        a.len() == b.len(),
        forall|i: int, j: int| 0 <= i < j < a.len() ==> a[i] < a[j],
        forall|i: int, j: int| 0 <= i < j < b.len() ==> b[i] < b[j],
        forall|x: usize| a.contains(x) <==> #[trigger] b.contains(x),
    ensures
        a == b,
    decreases a.len(),
{
    if a.len() > 0 {
        let la = a.last();
        let lb = b.last();
        assert(la == lb) by {
            assert(a[a.len() - 1] == la && a.contains(la));
            assert(b[b.len() - 1] == lb && b.contains(lb));
            assert(b.contains(la) && a.contains(lb));
            let i = choose|i: int| 0 <= i < b.len() && b[i] == la;
            let j = choose|j: int| 0 <= j < a.len() && a[j] == lb;
            assert(b[i] <= lb && a[j] <= la);
        }
        let a0 = a.drop_last();
        let b0 = b.drop_last();
        assert forall|x: usize| a0.contains(x) <==> #[trigger] b0.contains(x) by {
            if a0.contains(x) {
                let i = choose|i: int| 0 <= i < a0.len() && a0[i] == x;
                assert(a[i] == x && x < la);
                assert(a.contains(x));
                assert(b.contains(x));
                let j = choose|j: int| 0 <= j < b.len() && b[j] == x;
                assert(b0[j] == x);
            }
            if b0.contains(x) {
                let i = choose|i: int| 0 <= i < b0.len() && b0[i] == x;
                assert(b[i] == x && x < lb);
                assert(b.contains(x));
                assert(a.contains(x));
                let j = choose|j: int| 0 <= j < a.len() && a[j] == x;
                assert(a0[j] == x);
            }
        }
        ascending_members_agree(a0, b0);
        assert(a =~= a0.push(la));
        assert(b =~= b0.push(lb));
    }
}

/// A thread's generator draws below the pool's size, and zero where there is no choice; a script is
/// drawn in its order, and an exhausted one draws zero.
pub proof fn generators_draw_below_the_pool(
    thread: ThreadShadowRng,
    thread_next: ThreadShadowRng,
    script: ScriptedRng,
    script_next: ScriptedRng,
    n: usize,
    r: usize,
)
    ensures
        n > 0 && thread.may_draw(n, r, &thread_next) ==> r < n,
        n <= 1 && thread.may_draw(n, r, &thread_next) ==> r == 0,
        n > 0 && script.may_draw(n, r, &script_next) ==> r < n,
        n == 0 && script.may_draw(n, r, &script_next) ==> r == 0 && script_next.drawn()
            == script.drawn(),
        script.may_draw(n, r, &script_next) ==> script_next.script() == script.script(),
        n > 0 && script.may_draw(n, r, &script_next) && script.drawn() < usize::MAX
            ==> script_next.drawn() == script.drawn() + 1,
        n > 0 && script.may_draw(n, r, &script_next) && script.drawn() < script.script().len()
            ==> r as int == script.script()[script.drawn() as int] as int % n as int,
        n > 0 && script.may_draw(n, r, &script_next) && script.drawn() >= script.script().len()
            ==> r == 0,
{
    if n > 0 {
        assert(0int % (n as int) == 0) by (nonlinear_arith)
            requires
                n > 0,
        ;
    }
}

} // verus!
