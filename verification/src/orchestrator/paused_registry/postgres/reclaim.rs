//! Reclaims expired holdings and releases a dead node's rows.
//! Running and resuming releases stay separate statements in one transaction;
//! the discard breaker rolls back the entire transaction when it trips.

use super::super::types::{PausedRegistryError, ReleasedHoldings};
use super::grace::{is_serving, phase_of};
use crate::text::{signed_decimal, signed_decimal_text};
use vstd::prelude::*;
use vstd::string::*;

verus! {

/// How long one reclaim pass may take, in seconds.
pub const TICK_BUDGET_SECS: u64 = 25;

/// Limits destructive reclaim by row count, and by ratio above a minimum of rows. The ratio itself
/// is held against its limit by the caller.
#[derive(Debug, Clone, Copy, PartialEq, Eq, Structural)]
pub struct DiscardBreaker {
    pub max_rows: i64,
    pub min_ratio_rows: i64,
}

/// The row limit where none is configured.
pub const DEFAULT_MAX_ROWS: i64 = 10;

/// How many discards the ratio lets pass where no number is configured.
pub const DEFAULT_MIN_RATIO_ROWS: i64 = 3;

impl Default for DiscardBreaker {
    fn default() -> (r: DiscardBreaker)
        ensures
            r.max_rows == DEFAULT_MAX_ROWS,
            r.min_ratio_rows == DEFAULT_MIN_RATIO_ROWS,
            r.max_rows == 10,
            r.min_ratio_rows == 3,
    {
        DiscardBreaker { max_rows: DEFAULT_MAX_ROWS, min_ratio_rows: DEFAULT_MIN_RATIO_ROWS }
    }
}

/// A configured limit, or its default where it is not positive.
pub open spec fn limit_or(configured: i64, default: i64) -> i64 {
    if configured > 0 {
        configured
    } else {
        default
    }
}

impl DiscardBreaker {
    /// The row limit in force.
    pub open spec fn rows_limit(self) -> i64 {
        limit_or(self.max_rows, DEFAULT_MAX_ROWS)
    }

    /// How many discards the ratio lets pass.
    pub open spec fn ratio_floor(self) -> i64 {
        limit_or(self.min_ratio_rows, DEFAULT_MIN_RATIO_ROWS)
    }

    /// Whether discarding `candidates` of `total` rows trips the breaker; `ratio_exceeded` says
    /// whether their ratio is above its limit.
    pub open spec fn trips(self, candidates: i64, total: i64, ratio_exceeded: bool) -> bool {
        candidates != 0 && (candidates > self.rows_limit() || (total > 0 && candidates
            > self.ratio_floor() && ratio_exceeded))
    }

    /// Why the breaker tripped.
    pub open spec fn refusal(self, candidates: i64, total: i64, percent: Seq<char>) -> Seq<char> {
        REFUSAL_HEAD@ + signed_decimal_text(candidates as int) + " of "@ + signed_decimal_text(
            total as int,
        ) + " rows exceeds the limit of "@ + signed_decimal_text(self.rows_limit() as int)
            + ", or "@ + percent + "% above "@ + signed_decimal_text(self.ratio_floor() as int)
            + " rows)"@
    }

    /// Allows a discard pass only when neither breaker threshold is exceeded.
    ///
    /// `ratio_exceeded` says whether `candidates` over `total` is above the ratio limit, and
    /// `percent` is that limit as the refusal shows it.
    pub fn allow(
        &self,
        candidates: i64,
        total: i64,
        ratio_exceeded: bool,
        percent: &str,
    ) -> (r: Result<(), String>)
        ensures
            match r {
                Ok(_) => !self.trips(candidates, total, ratio_exceeded),
                Err(reason) => self.trips(candidates, total, ratio_exceeded) && reason@
                    == self.refusal(candidates, total, percent@),
            },
            ({
                let most: int = if self.max_rows > 0 {
                    self.max_rows as int
                } else {
                    10
                };
                let few: int = if self.min_ratio_rows > 0 {
                    self.min_ratio_rows as int
                } else {
                    3
                };
                &&& r is Err <==> candidates != 0 && (candidates > most || (total > 0 && candidates
                    > few && ratio_exceeded))
                &&& r matches Err(reason) ==> reason@ == REFUSAL_HEAD@ + signed_decimal_text(
                    candidates as int,
                ) + " of "@ + signed_decimal_text(total as int) + " rows exceeds the limit of "@
                    + signed_decimal_text(most) + ", or "@ + percent@ + "% above "@
                    + signed_decimal_text(few) + " rows)"@
            }),
    {
        if candidates == 0 {
            return Ok(());
        }
        let max_rows: i64 = if self.max_rows > 0 {
            self.max_rows
        } else {
            DEFAULT_MAX_ROWS
        };
        let min_ratio_rows: i64 = if self.min_ratio_rows > 0 {
            self.min_ratio_rows
        } else {
            DEFAULT_MIN_RATIO_ROWS
        };
        let over_count: bool = candidates > max_rows;
        let over_ratio: bool = total > 0 && candidates > min_ratio_rows && ratio_exceeded;
        if !over_count && !over_ratio {
            return Ok(());
        }
        let mut out = REFUSAL_HEAD.to_owned();
        out.append(signed_decimal(candidates).as_str());
        out.append(" of ");
        out.append(signed_decimal(total).as_str());
        out.append(" rows exceeds the limit of ");
        out.append(signed_decimal(max_rows).as_str());
        out.append(", or ");
        out.append(percent);
        out.append("% above ");
        out.append(signed_decimal(min_ratio_rows).as_str());
        out.append(" rows)");
        Err(out)
    }
}

/// Begins the refusal of a discard pass.
pub const REFUSAL_HEAD: &'static str = "refusing to reclaim: this pass would discard more rows than anything here can explain, and a discarded row has no snapshot to come back from (";

/// What a reclaim transaction does once its releases are made and its discards counted.
///
/// A tripped breaker rolls back releases and discards together: the error says why.
pub fn reclaim_verdict(
    breaker: &DiscardBreaker,
    candidates: i64,
    total: i64,
    ratio_exceeded: bool,
    percent: &str,
) -> (r: Result<(), PausedRegistryError>)
    ensures
        match r {
            Ok(_) => !breaker.trips(candidates, total, ratio_exceeded),
            Err(e) => breaker.trips(candidates, total, ratio_exceeded) && (e matches
                PausedRegistryError::Backend { operation, reason } && operation@
                == "reclaim_expired_holdings"@ && reason@ == breaker.refusal(
                candidates,
                total,
                percent@,
            )),
        },
{
    match breaker.allow(candidates, total, ratio_exceeded, percent) {
        Ok(_) => Ok(()),
        Err(reason) => Err(
            PausedRegistryError::Backend {
                operation: "reclaim_expired_holdings".to_owned(),
                reason,
            },
        ),
    }
}

/// What a committed reclaim pass did, from the rows that its statements affected.
pub fn reclaim_expired_holdings(
    released_running: u64,
    released_resuming: u64,
    discarded: u64,
) -> (r: ReleasedHoldings)
    requires
        released_running + released_resuming <= u64::MAX,
    ensures
        r == (ReleasedHoldings {
            released: (released_running + released_resuming) as u64,
            discarded,
        }),
{
    ReleasedHoldings { released: released_running + released_resuming, discarded }
}

/// Whether a reclaim tick runs its pass: only past restart grace.
pub fn reclaims_now(serving: Option<bool>) -> (r: bool)
    ensures
        r == (phase_of(serving) is Serving),
        r == (serving == Some(true)),
{
    is_serving(serving)
}

/// The breaker never stops a pass that discards nothing, always stops one over the row limit, and
/// below the limits' floor stops none, whatever the ratio.
pub proof fn breaker_bounds(b: DiscardBreaker, candidates: i64, total: i64, ratio_exceeded: bool)
    ensures
        candidates == 0 ==> !b.trips(candidates, total, ratio_exceeded),
        candidates > b.rows_limit() ==> b.trips(candidates, total, ratio_exceeded),
        candidates <= b.ratio_floor() && candidates <= b.rows_limit() ==> !b.trips(
            candidates,
            total,
            ratio_exceeded,
        ),
        b.rows_limit() > 0 && b.ratio_floor() > 0,
{
}

/// The breaker trips on more than ten discards where no limit is configured and on more than the
/// limit where one is; below that it trips only on a ratio above its limit, of more than three
/// discards or what is configured. More discards never pass where fewer do not.
pub proof fn the_breaker_trips_on_many_discards(
    b: DiscardBreaker,
    candidates: i64,
    more: i64,
    total: i64,
    ratio_exceeded: bool,
)
    ensures
        ({
            let most: int = if b.max_rows > 0 {
                b.max_rows as int
            } else {
                10
            };
            let few: int = if b.min_ratio_rows > 0 {
                b.min_ratio_rows as int
            } else {
                3
            };
            &&& candidates > most ==> b.trips(candidates, total, ratio_exceeded)
            &&& candidates <= most && !ratio_exceeded ==> !b.trips(candidates, total, ratio_exceeded)
            &&& candidates <= most && candidates <= few ==> !b.trips(
                candidates,
                total,
                ratio_exceeded,
            )
            &&& candidates > few && total > 0 && ratio_exceeded ==> b.trips(
                candidates,
                total,
                ratio_exceeded,
            )
            &&& candidates <= most && total <= 0 ==> !b.trips(candidates, total, ratio_exceeded)
        }),
        0 <= candidates <= more && b.trips(candidates, total, ratio_exceeded) ==> b.trips(
            more,
            total,
            ratio_exceeded,
        ),
{
}

/// A refusal names the candidates, the rows there are, the row limit in force, the ratio limit and
/// how many discards the ratio lets pass, in that order.
pub proof fn refusals_name_the_limits(
    b: DiscardBreaker,
    candidates: i64,
    total: i64,
    percent: Seq<char>,
)
    ensures
        b.refusal(candidates, total, percent)
            == "refusing to reclaim: this pass would discard more rows than anything here can explain, and a discarded row has no snapshot to come back from ("@
            + signed_decimal_text(candidates as int) + " of "@ + signed_decimal_text(total as int)
            + " rows exceeds the limit of "@ + signed_decimal_text(
            if b.max_rows > 0 {
                b.max_rows as int
            } else {
                10
            },
        ) + ", or "@ + percent + "% above "@ + signed_decimal_text(
            if b.min_ratio_rows > 0 {
                b.min_ratio_rows as int
            } else {
                3
            },
        ) + " rows)"@,
{
}

} // verus!
