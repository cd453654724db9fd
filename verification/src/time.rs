//! Points in time and spans of time, held as whole nanoseconds.

use vstd::prelude::*;

verus! {

/// Nanoseconds in one second.
pub const NANOS_PER_SEC: u64 = 1_000_000_000;

/// Nanoseconds in one millisecond.
pub const NANOS_PER_MILLI: u64 = 1_000_000;

/// The longest span a `Duration` can hold: `u64::MAX` whole seconds and
/// 999_999_999 nanoseconds.
pub open spec fn max_duration_nanos() -> nat {
    (u64::MAX as nat) * (NANOS_PER_SEC as nat) + 999_999_999nat
}

proof fn lemma_secs_in_range(secs: nat, extra: nat)
    requires
        secs <= u64::MAX,
        extra < NANOS_PER_SEC,
    ensures
        secs * (NANOS_PER_SEC as nat) + extra <= max_duration_nanos(),
        max_duration_nanos() < u128::MAX,
{
    assert(secs * (NANOS_PER_SEC as nat) <= (u64::MAX as nat) * (NANOS_PER_SEC as nat))
        by (nonlinear_arith)
        requires
            secs <= u64::MAX,
    ;
}

proof fn lemma_whole_secs_fit(n: nat)
    requires
        n <= max_duration_nanos(),
    ensures
        n / (NANOS_PER_SEC as nat) <= u64::MAX,
{
    assert(n / (NANOS_PER_SEC as nat) <= u64::MAX) by (nonlinear_arith)
        requires
            n <= (u64::MAX as nat) * 1_000_000_000 + 999_999_999,
    ;
}

/// A span of time with nanosecond precision; its view is the number of
/// nanoseconds it spans.
#[derive(Clone, Copy, Debug, PartialEq, Eq, Structural)]
pub struct Duration {
    nanos: u128,
}

impl View for Duration {
    type V = nat;

    closed spec fn view(&self) -> nat {
        self.nanos as nat
    }
}

impl Duration {
    #[verifier::type_invariant]
    closed spec fn in_range(self) -> bool {
        self.nanos <= max_duration_nanos()
    }

    /// A span of `secs` whole seconds.
    pub fn from_secs(secs: u64) -> (d: Duration)
        ensures
            d@ == secs * NANOS_PER_SEC,
            d@ <= max_duration_nanos(),
    {
        proof {
            lemma_secs_in_range(secs as nat, 0);
        }
        Duration { nanos: (secs as u128) * (NANOS_PER_SEC as u128) }
    }

    /// A span of `secs` seconds plus `nanos` nanoseconds; nanoseconds past a
    /// whole second carry into the seconds, which must not overflow.
    pub fn new(secs: u64, nanos: u32) -> (d: Duration)
        requires
            secs + (nanos as nat) / (NANOS_PER_SEC as nat) <= u64::MAX,
        ensures
            d@ == secs * NANOS_PER_SEC + nanos,
            d@ <= max_duration_nanos(),
    {
        let carry: u64 = (nanos as u64) / NANOS_PER_SEC;
        let rest: u64 = (nanos as u64) % NANOS_PER_SEC;
        let whole: u64 = secs + carry;
        proof {
            lemma_secs_in_range(whole as nat, rest as nat);
            assert(nanos == carry * NANOS_PER_SEC + rest);
            assert(whole * NANOS_PER_SEC == secs * NANOS_PER_SEC + carry * NANOS_PER_SEC)
                by (nonlinear_arith)
                requires
                    whole == secs + carry,
            ;
        }
        Duration { nanos: (whole as u128) * (NANOS_PER_SEC as u128) + (rest as u128) }
    }

    /// The span in whole nanoseconds, between 0 and `max_duration_nanos()`.
    pub(crate) fn from_total_nanos(n: u128) -> (d: Duration)
        requires
            n <= max_duration_nanos(),
        ensures
            d@ == n,
    {
        Duration { nanos: n }
    }

    /// The span in whole nanoseconds.
    pub fn as_nanos(&self) -> (n: u128)
        ensures
            n == self@,
            n <= max_duration_nanos(),
    {
        proof {
            use_type_invariant(self);
        }
        self.nanos
    }

    /// The number of whole seconds in the span.
    pub fn as_secs(&self) -> (s: u64)
        ensures
            s == self@ / (NANOS_PER_SEC as nat),
    {
        proof {
            use_type_invariant(self);
            lemma_whole_secs_fit(self.nanos as nat);
        }
        (self.nanos / (NANOS_PER_SEC as u128)) as u64
    }

    /// The fractional part of the span, in whole milliseconds.
    pub fn subsec_millis(&self) -> (ms: u32)
        ensures
            ms == (self@ % (NANOS_PER_SEC as nat)) / (NANOS_PER_MILLI as nat),
    {
        ((self.nanos % (NANOS_PER_SEC as u128)) / (NANOS_PER_MILLI as u128)) as u32
    }

    /// The fractional part of the span, in nanoseconds.
    pub fn subsec_nanos(&self) -> (ns: u32)
        ensures
            ns == self@ % (NANOS_PER_SEC as nat),
    {
        (self.nanos % (NANOS_PER_SEC as u128)) as u32
    }
}

/// A point in time, measured as the span elapsed since a fixed origin
/// chosen by whoever reads the clock.
#[derive(Clone, Copy, Debug, PartialEq, Eq, Structural)]
pub struct Instant {
    since_origin: Duration,
}

impl View for Instant {
    type V = nat;

    closed spec fn view(&self) -> nat {
        self.since_origin@
    }
}

impl Instant {
    /// The instant that lies `elapsed` after the origin.
    pub fn from_elapsed(elapsed: Duration) -> (t: Instant)
        ensures
            t@ == elapsed@,
    {
        Instant { since_origin: elapsed }
    }

    /// The span from the origin to this instant.
    pub fn elapsed(&self) -> (d: Duration)
        ensures
            d@ == self@,
            d@ <= max_duration_nanos(),
    {
        proof {
            use_type_invariant(&self.since_origin);
        }
        self.since_origin
    }

    /// The instant `d` after this one; the sum must stay representable.
    pub fn plus(self, d: Duration) -> (t: Instant)
        requires
            self@ + d@ <= max_duration_nanos(),
        ensures
            t@ == self@ + d@,
    {
        let total = self.since_origin.as_nanos() + d.as_nanos();
        Instant { since_origin: Duration::from_total_nanos(total) }
    }

    /// Whether this instant comes strictly before `other`.
    pub fn is_before(&self, other: &Instant) -> (b: bool)
        ensures
            b == (self@ < other@),
    {
        self.since_origin.as_nanos() < other.since_origin.as_nanos()
    }

    /// The span from `earlier` to this instant, or zero when `earlier` is
    /// not actually earlier.
    pub fn saturating_duration_since(&self, earlier: Instant) -> (d: Duration)
        ensures
            d@ == (if self@ > earlier@ { self@ - earlier@ } else { 0 }),
    {
        let a = self.since_origin.as_nanos();
        let b = earlier.since_origin.as_nanos();
        if a > b {
            Duration::from_total_nanos(a - b)
        } else {
            Duration::from_total_nanos(0)
        }
    }
}

} // verus!
