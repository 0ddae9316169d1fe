//! Instants and spans of time as plain values.

use vstd::prelude::*;

verus! {

/// Nanoseconds in one second.
pub const NANOS_PER_SEC: i128 = 1_000_000_000;

/// Seconds past which no instant lies.
pub const SECS_LIMIT: i128 = 0x8000_0000_0000_0000;

/// An instant: seconds from the Unix epoch and nanoseconds on top of them.
#[derive(Debug, Clone, Copy)]
pub struct Timestamp {
    pub secs: i64,
    pub nanos: u32,
}

/// A span of time that is not negative.
#[derive(Debug, Clone, Copy)]
pub struct Span {
    pub secs: u64,
    pub nanos: u32,
}

impl View for Timestamp {
    type V = int;

    /// Nanoseconds from the Unix epoch.
    open spec fn view(&self) -> int {
        self.secs as int * NANOS_PER_SEC + self.nanos as int
    }
}

impl View for Span {
    type V = int;

    /// Nanoseconds.
    open spec fn view(&self) -> int {
        self.secs as int * NANOS_PER_SEC + self.nanos as int
    }
}

/// Whether an instant so many nanoseconds from the epoch can be told.
pub open spec fn is_instant(nanos: int) -> bool {
    -SECS_LIMIT * NANOS_PER_SEC <= nanos < SECS_LIMIT * NANOS_PER_SEC
}

impl Span {
    /// A span of whole seconds.
    pub fn from_secs(secs: u64) -> (r: Span)
        ensures
            r == (Span { secs, nanos: 0 }),
            r@ == secs as int * NANOS_PER_SEC,
    {
        Span { secs, nanos: 0 }
    }

    /// The empty span.
    pub fn zero() -> (r: Span)
        ensures
            r == (Span { secs: 0, nanos: 0 }),
            r@ == 0,
    {
        Span { secs: 0, nanos: 0 }
    }

    /// The span in nanoseconds.
    pub fn total_nanos(self) -> (r: i128)
        ensures
            r == self@,
            0 <= r < 0x1_0000_0000_0000_0000 * NANOS_PER_SEC + 0x1_0000_0000,
    {
        self.secs as i128 * NANOS_PER_SEC + self.nanos as i128
    }

    /// Whether the span is empty.
    pub fn is_zero(self) -> (r: bool)
        ensures
            r == (self@ == 0),
    {
        self.total_nanos() == 0
    }
}

impl Timestamp {
    /// The instant `secs` seconds after the Unix epoch.
    pub fn from_unix(secs: i64) -> (r: Timestamp)
        ensures
            r == (Timestamp { secs, nanos: 0 }),
            r@ == secs as int * NANOS_PER_SEC,
    {
        Timestamp { secs, nanos: 0 }
    }

    /// The instant in nanoseconds from the Unix epoch.
    pub fn total_nanos(self) -> (r: i128)
        ensures
            r == self@,
            -SECS_LIMIT * NANOS_PER_SEC <= r < SECS_LIMIT * NANOS_PER_SEC + 0x1_0000_0000,
    {
        self.secs as i128 * NANOS_PER_SEC + self.nanos as i128
    }

    /// The instant a span later.
    pub fn plus(self, span: Span) -> (r: Timestamp)
        requires
            is_instant(self@ + span@),
        ensures
            r@ == self@ + span@,
    {
        let total: i128 = self.total_nanos() + span.total_nanos();
        let mut secs: i128 = total / NANOS_PER_SEC;
        let mut nanos: i128 = total % NANOS_PER_SEC;
        if nanos < 0 {
            secs = secs - 1;
            nanos = nanos + NANOS_PER_SEC;
        }
        Timestamp { secs: secs as i64, nanos: nanos as u32 }
    }

    /// The span since `earlier`; empty where `earlier` is not earlier.
    pub fn since(self, earlier: Timestamp) -> (r: Span)
        requires
            is_instant(self@),
        ensures
            r@ == if self@ > earlier@ {
                self@ - earlier@
            } else {
                0
            },
    {
        let total: i128 = self.total_nanos() - earlier.total_nanos();
        if total <= 0 {
            return Span::zero();
        }
        Span {
            secs: (total / NANOS_PER_SEC) as u64,
            nanos: (total % NANOS_PER_SEC) as u32,
        }
    }

    /// Whether this instant comes before `other`.
    pub fn before(self, other: Timestamp) -> (r: bool)
        ensures
            r == (self@ < other@),
    {
        self.total_nanos() < other.total_nanos()
    }

    /// Whether both are the same instant.
    pub fn same_instant(self, other: Timestamp) -> (r: bool)
        ensures
            r == (self@ == other@),
    {
        self.total_nanos() == other.total_nanos()
    }

    /// The later of two instants.
    pub fn later_of(self, other: Timestamp) -> (r: Timestamp)
        ensures
            r == if other@ > self@ {
                other
            } else {
                self
            },
    {
        if self.before(other) {
            other
        } else {
            self
        }
    }
}

/// A second has a thousand million nanoseconds, for instants and spans alike.
pub proof fn seconds_count_in_nanoseconds(t: Timestamp, s: Span)
    ensures
        t@ == t.secs * 1_000_000_000 + t.nanos,
        s@ == s.secs * 1_000_000_000 + s.nanos,
        s@ >= 0,
        is_instant(t.secs * 1_000_000_000),
{
    assert(-0x8000_0000_0000_0000 * 1_000_000_000 <= t.secs * 1_000_000_000
        < 0x8000_0000_0000_0000 * 1_000_000_000) by (nonlinear_arith)
        requires
            -0x8000_0000_0000_0000 <= t.secs < 0x8000_0000_0000_0000,
    ;
}

} // verus!
