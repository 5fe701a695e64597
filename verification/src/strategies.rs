//! Waits between connection attempts, and the cap that a backoff strategy puts on them.

use vstd::prelude::*;

verus! {

/// One billion: the nanoseconds in a second.
pub const NANOS_PER_SEC: u32 = 1_000_000_000;

/// A wait before a connection attempt: whole seconds and the nanoseconds beyond them.
#[derive(Clone, Copy, Debug, PartialEq, Eq, Structural)]
pub struct Delay {
    pub secs: u64,
    pub nanos: u32,
}

impl Delay {
    /// The nanoseconds part is less than a second.
    pub open spec fn valid(self) -> bool {
        self.nanos < NANOS_PER_SEC
    }

    /// The length of the wait in nanoseconds.
    pub open spec fn total_nanos(self) -> int {
        self.secs * NANOS_PER_SEC + self.nanos
    }

    /// `self` is strictly shorter than `other`, comparing seconds first, then nanoseconds.
    pub open spec fn shorter_than(self, other: Delay) -> bool {
        self.secs < other.secs || (self.secs == other.secs && self.nanos < other.nanos)
    }

    /// No wait at all.
    pub fn zero() -> (d: Delay)
        ensures
            d.valid(),
            d.total_nanos() == 0,
    {
        Delay { secs: 0, nanos: 0 }
    }

    /// A wait of the given number of milliseconds.
    pub fn from_millis(millis: u64) -> (d: Delay)
        ensures
            d.valid(),
            d.total_nanos() == millis * 1_000_000,
    {
        let secs: u64 = millis / 1000;
        let rest: u64 = millis % 1000;
        let nanos: u32 = (rest * 1_000_000) as u32;
        assert(secs * 1_000_000_000 + rest * 1_000_000 == millis * 1_000_000) by (nonlinear_arith)
            requires
                secs == millis / 1000,
                rest == millis % 1000,
        ;
        Delay { secs, nanos }
    }

    /// A wait of the given number of whole seconds.
    pub fn from_secs(secs: u64) -> (d: Delay)
        ensures
            d.valid(),
            d.total_nanos() == secs * 1_000_000_000,
    {
        Delay { secs, nanos: 0 }
    }
}

/// For valid waits, the lexicographic order on (seconds, nanoseconds) is the order on lengths.
pub proof fn lemma_shorter_is_fewer_nanos(a: Delay, b: Delay)
    requires
        a.valid(),
        b.valid(),
    ensures
        a.shorter_than(b) <==> a.total_nanos() < b.total_nanos(),
{
    if a.secs < b.secs {
        assert(a.secs * 1_000_000_000 + 1_000_000_000 <= b.secs * 1_000_000_000) by (nonlinear_arith)
            requires
                a.secs < b.secs,
        ;
    } else if a.secs > b.secs {
        assert(b.secs * 1_000_000_000 + 1_000_000_000 <= a.secs * 1_000_000_000) by (nonlinear_arith)
            requires
                b.secs < a.secs,
        ;
    }
}

/// The wait that a backoff strategy with an optional maximum hands out in place of `current`:
/// `current` itself, unless it is longer than the maximum, in which case the maximum.
pub fn cap_wait(current: Delay, max: Option<Delay>) -> (wait: Delay)
    ensures
        max is None ==> wait == current,
        max matches Some(m) ==> wait == (if m.shorter_than(current) { m } else { current }),
        max matches Some(m) ==> (current.valid() && m.valid() ==> wait.total_nanos() == (
        if m.total_nanos() < current.total_nanos() {
            m.total_nanos()
        } else {
            current.total_nanos()
        })),
{
    proof {
        if let Some(m) = max {
            if current.valid() && m.valid() {
                lemma_shorter_is_fewer_nanos(m, current);
            }
        }
    }
    match max {
        Some(m) => {
            if m.secs < current.secs || (m.secs == current.secs && m.nanos < current.nanos) {
                m
            } else {
                current
            }
        },
        None => current,
    }
}

} // verus!
