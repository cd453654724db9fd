//! Brute-force throttle: counts failed attempts and locks out after too many.

use vstd::prelude::*;

use crate::time::{max_duration_nanos, Duration, Instant, NANOS_PER_MILLI, NANOS_PER_SEC};

verus! {

/// Whole seconds still to wait for a lockout with `r` nanoseconds left:
/// the whole seconds (kept to 32 bits), plus one when at least a millisecond
/// of a further second remains.
pub open spec fn rounded_secs(r: nat) -> int {
    ((r / (NANOS_PER_SEC as nat)) as u32) as int + (if (r % (NANOS_PER_SEC as nat)) / (
    NANOS_PER_MILLI as nat) > 0 {
        1int
    } else {
        0int
    })
}

/// The abstract state of a [`Gate`], with all times in nanoseconds.
pub struct GateView {
    pub max_attempts: nat,
    pub lockout: nat,
    pub attempts: nat,
    pub locked_until: Option<nat>,
}

impl GateView {
    /// A gate that has seen no failure.
    pub open spec fn fresh(max_attempts: nat, lockout: nat) -> GateView {
        GateView { max_attempts, lockout, attempts: 0, locked_until: None }
    }

    /// The counter stays below the limit, and is zero while a lockout is set.
    pub open spec fn well_formed(self) -> bool {
        &&& (self.attempts == 0 || self.attempts < self.max_attempts)
        &&& (self.locked_until is Some ==> self.attempts == 0)
    }

    /// A lockout is in force at `now`.
    pub open spec fn is_locked_at(self, now: nat) -> bool {
        self.locked_until matches Some(until) && now < until
    }

    /// What `lockout_remaining` reports at `now`.
    pub open spec fn remaining_at(self, now: nat) -> Option<int> {
        match self.locked_until {
            Some(until) => if now < until {
                Some(rounded_secs((until - now) as nat))
            } else {
                None
            },
            None => None,
        }
    }

    /// The report at `now` fits in 32 bits.
    pub open spec fn remaining_fits(self, now: nat) -> bool {
        self.remaining_at(now) matches Some(secs) ==> secs <= u32::MAX
    }

    /// A lockout that has run out by `now` is cleared.
    pub open spec fn tick_expires(self, now: nat) -> bool {
        self.locked_until matches Some(until) && now >= until
    }

    pub open spec fn after_tick(self, now: nat) -> GateView {
        if self.tick_expires(now) {
            GateView { attempts: 0, locked_until: None, ..self }
        } else {
            self
        }
    }

    /// A failure at `now` that is counted and reaches the limit.
    pub open spec fn engages_lockout(self, now: nat) -> bool {
        !self.is_locked_at(now) && self.after_tick(now).attempts + 1 >= self.max_attempts
    }

    /// The state after a failure is reported at `now`.
    pub open spec fn after_failed(self, now: nat) -> GateView {
        if self.is_locked_at(now) {
            self
        } else if self.engages_lockout(now) {
            GateView { attempts: 0, locked_until: Some(now + self.lockout), ..self }
        } else {
            let t = self.after_tick(now);
            GateView { attempts: t.attempts + 1, ..t }
        }
    }

    /// What `failed` returns at `now`: the lockout span when it engages.
    pub open spec fn failed_result(self, now: nat) -> Option<nat> {
        if self.engages_lockout(now) {
            Some(self.lockout)
        } else {
            None
        }
    }

    /// The state after `n` failures, all reported at `now`.
    pub open spec fn failed_times(self, now: nat, n: nat) -> GateView
        decreases n,
    {
        if n == 0 {
            self
        } else {
            self.failed_times(now, (n - 1) as nat).after_failed(now)
        }
    }

    /// The state after a success.
    pub open spec fn after_succeeded(self) -> GateView {
        GateView { attempts: 0, locked_until: None, ..self }
    }
}

/// The span of a `Duration` option, in nanoseconds.
pub open spec fn duration_option_view(d: Option<Duration>) -> Option<nat> {
    match d {
        Some(d) => Some(d@),
        None => None,
    }
}

/// Brute-force throttle: counts failed attempts and locks out after too many.
#[derive(Debug)]
pub struct Gate {
    max_attempts: u32,
    lockout: Duration,
    attempts: u32,
    locked_until: Option<Instant>,
}

impl View for Gate {
    type V = GateView;

    closed spec fn view(&self) -> GateView {
        GateView {
            max_attempts: self.max_attempts as nat,
            lockout: self.lockout@,
            attempts: self.attempts as nat,
            locked_until: match self.locked_until {
                Some(t) => Some(t@),
                None => None,
            },
        }
    }
}

impl Clone for Gate {
    fn clone(&self) -> (g: Gate)
        ensures
            g@ == self@,
    {
        proof {
            use_type_invariant(self);
        }
        Gate {
            max_attempts: self.max_attempts,
            lockout: self.lockout,
            attempts: self.attempts,
            locked_until: self.locked_until,
        }
    }
}

impl Gate {
    #[verifier::type_invariant]
    closed spec fn counter_consistent(self) -> bool {
        &&& (self.attempts == 0 || self.attempts < self.max_attempts)
        &&& (self.locked_until is Some ==> self.attempts == 0)
    }

    /// A gate allowing `max_attempts - 1` counted failures before a failure
    /// engages a lockout of `lockout`.
    pub fn new(max_attempts: u32, lockout: Duration) -> (g: Gate)
        ensures
            g@ == GateView::fresh(max_attempts as nat, lockout@),
            g@.well_formed(),
    {
        Gate { max_attempts, lockout, attempts: 0, locked_until: None }
    }

    /// Failures counted since the last reset.
    pub fn attempts(&self) -> (n: u32)
        ensures
            n == self@.attempts,
            self@.well_formed(),
    {
        proof {
            use_type_invariant(self);
        }
        self.attempts
    }

    /// Whether a lockout is in force at `now`, the case in which
    /// `lockout_remaining` reports a value.
    pub fn lockout_remaining_is_some(&self, now: Instant) -> (b: bool)
        ensures
            b == self@.is_locked_at(now@),
    {
        match self.locked_until {
            Some(until) => now.is_before(&until),
            None => false,
        }
    }

    /// Whole seconds left in the lockout at `now`, rounded up once at least a
    /// millisecond of a further second remains; `None` when no lockout is in
    /// force.
    pub fn lockout_remaining(&self, now: Instant) -> (r: Option<u32>)
        requires
            self@.remaining_fits(now@),
        ensures
            r matches Some(secs) ==> self@.remaining_at(now@) == Some(secs as int),
            r is None ==> self@.remaining_at(now@) is None,
            r is Some <==> self@.is_locked_at(now@),
    {
        match self.locked_until {
            Some(until) => {
                if now.is_before(&until) {
                    let remaining = until.saturating_duration_since(now);
                    let carry: u32 = if remaining.subsec_millis() > 0 {
                        1
                    } else {
                        0
                    };
                    Some(remaining.as_secs() as u32 + carry)
                } else {
                    None
                }
            },
            None => None,
        }
    }

    /// Clears a lockout that has run out by `now`, together with the counter;
    /// reports whether it did.
    pub fn tick(&mut self, now: Instant) -> (expired: bool)
        ensures
            expired == old(self)@.tick_expires(now@),
            final(self)@ == old(self)@.after_tick(now@),
            final(self)@.well_formed(),
    {
        proof {
            use_type_invariant(&*self);
        }
        let expired = match self.locked_until {
            Some(until) => !now.is_before(&until),
            None => false,
        };
        if expired {
            self.locked_until = None;
            self.attempts = 0;
        }
        proof {
            use_type_invariant(&*self);
        }
        expired
    }

    /// Records a failed attempt at `now`. Ignored while a lockout is in force;
    /// otherwise counted, and when the count reaches the limit the counter is
    /// reset, a lockout starts at `now` and its span is returned.
    pub fn failed(&mut self, now: Instant) -> (r: Option<Duration>)
        requires
            old(self)@.engages_lockout(now@) ==> now@ + old(self)@.lockout
                <= max_duration_nanos(),
        ensures
            final(self)@ == old(self)@.after_failed(now@),
            duration_option_view(r) == old(self)@.failed_result(now@),
            final(self)@.well_formed(),
    {
        proof {
            use_type_invariant(&*self);
        }
        if self.lockout_remaining_is_some(now) {
            return None;
        }
        self.tick(now);
        proof {
            use_type_invariant(&*self);
        }
        let next = self.attempts + 1;
        if next >= self.max_attempts {
            self.attempts = 0;
            self.locked_until = Some(now.plus(self.lockout));
            proof {
                use_type_invariant(&*self);
            }
            Some(self.lockout)
        } else {
            self.attempts = next;
            proof {
                use_type_invariant(&*self);
            }
            None
        }
    }

    /// Clears the counter and any lockout.
    pub fn succeeded(&mut self)
        ensures
            final(self)@ == old(self)@.after_succeeded(),
            final(self)@.well_formed(),
    {
        self.attempts = 0;
        self.locked_until = None;
    }
}

/// The rounded report never grows as the remaining span shrinks, as long as
/// the whole seconds fit in 32 bits.
proof fn lemma_rounded_secs_monotone(r1: nat, r2: nat)
    requires
        r2 <= r1,
        r1 / (NANOS_PER_SEC as nat) <= u32::MAX,
    ensures
        rounded_secs(r2) <= rounded_secs(r1),
{
    let n = NANOS_PER_SEC as int;
    let q1 = r1 as int / n;
    let q2 = r2 as int / n;
    vstd::arithmetic::div_mod::lemma_div_is_ordered(r2 as int, r1 as int, n);
    vstd::arithmetic::div_mod::lemma_fundamental_div_mod(r1 as int, n);
    vstd::arithmetic::div_mod::lemma_fundamental_div_mod(r2 as int, n);
    vstd::arithmetic::div_mod::lemma_div_pos_is_pos(r2 as int, n);
    assert(q2 <= q1);
    if q2 == q1 {
        assert(r2 as int % n <= r1 as int % n);
        vstd::arithmetic::div_mod::lemma_div_is_ordered(
            r2 as int % n,
            r1 as int % n,
            NANOS_PER_MILLI as int,
        );
    }
}

/// Law: from a fresh gate with a limit of at least one, failures reported at
/// one instant are counted one by one without any lockout until the limit is
/// reached; the failure that reaches it returns the configured lockout span,
/// resets the counter and starts a lockout at that instant.
pub proof fn lemma_lockout_after_max_failures(max_attempts: nat, lockout: nat, now: nat, k: nat)
    requires
        max_attempts >= 1,
        k < max_attempts,
    ensures
        GateView::fresh(max_attempts, lockout).failed_times(now, k) == (GateView {
            attempts: k,
            ..GateView::fresh(max_attempts, lockout)
        }),
        k + 1 < max_attempts ==> GateView::fresh(max_attempts, lockout).failed_times(
            now,
            k,
        ).failed_result(now) is None,
        k + 1 == max_attempts ==> GateView::fresh(max_attempts, lockout).failed_times(
            now,
            k,
        ).failed_result(now) == Some(lockout),
        k + 1 == max_attempts ==> GateView::fresh(max_attempts, lockout).failed_times(
            now,
            k + 1,
        ) == (GateView {
            locked_until: Some(now + lockout),
            ..GateView::fresh(max_attempts, lockout)
        }),
    decreases k,
{
    if k > 0 {
        lemma_lockout_after_max_failures(max_attempts, lockout, now, (k - 1) as nat);
    }
}

/// Law: a failure reported while a lockout is in force changes nothing and
/// returns nothing.
pub proof fn lemma_failed_during_lockout_is_ignored(g: GateView, now: nat)
    requires
        g.is_locked_at(now),
    ensures
        g.after_failed(now) == g,
        g.failed_result(now) is None,
{
}

/// Law: once the lockout has run out, a tick clears it and the counter, and
/// no time remains to be reported.
pub proof fn lemma_lockout_expires(g: GateView, now: nat)
    requires
        g.locked_until matches Some(until) && now >= until,
    ensures
        g.tick_expires(now),
        g.after_tick(now).locked_until is None,
        g.after_tick(now).attempts == 0,
        g.remaining_at(now) is None,
        g.after_tick(now).remaining_at(now) is None,
{
}

/// Law: the reported remaining time counts down: at a later instant it is
/// never larger, and once nothing is reported nothing is reported later.
pub proof fn lemma_remaining_counts_down(g: GateView, t1: nat, t2: nat)
    requires
        t1 <= t2,
        g.locked_until matches Some(until) && (until - t1) / (NANOS_PER_SEC as int) <= u32::MAX,
    ensures
        g.remaining_at(t2) matches Some(r2) ==> (g.remaining_at(t1) matches Some(r1) && r2 <= r1),
        g.remaining_at(t1) is None ==> g.remaining_at(t2) is None,
{
    let until = g.locked_until->0;
    if t2 < until {
        lemma_rounded_secs_monotone((until - t1) as nat, (until - t2) as nat);
    }
}

/// Law: the failure that engages a lockout is followed, at the same instant,
/// by a report of the whole lockout span (rounded), unless the span is zero.
pub proof fn lemma_lockout_reported_when_engaged(g: GateView, now: nat)
    requires
        g.engages_lockout(now),
    ensures
        g.after_failed(now).remaining_at(now) == (if g.lockout > 0 {
            Some(rounded_secs(g.lockout))
        } else {
            None
        }),
        g.lockout > 0 ==> g.after_failed(now).is_locked_at(now),
{
}

/// Law: every transition keeps the counter below the limit and zero while a
/// lockout is set.
pub proof fn lemma_transitions_keep_well_formed(g: GateView, now: nat)
    requires
        g.well_formed(),
    ensures
        g.after_tick(now).well_formed(),
        g.after_failed(now).well_formed(),
        g.after_succeeded().well_formed(),
        GateView::fresh(g.max_attempts, g.lockout).well_formed(),
{
}

/// Law: after a success no lockout is in force at any instant and the
/// counter is zero.
pub proof fn lemma_success_clears(g: GateView, now: nat)
    ensures
        !g.after_succeeded().is_locked_at(now),
        g.after_succeeded().remaining_at(now) is None,
        g.after_succeeded().attempts == 0,
{
}

/// Law: a lockout engaged at `now` is in force at every instant before
/// `now` plus the lockout span, and at none from then on.
pub proof fn lemma_lockout_lasts_its_span(g: GateView, now: nat, t: nat)
    requires
        g.engages_lockout(now),
        now <= t,
    ensures
        g.after_failed(now).is_locked_at(t) == (t < now + g.lockout),
{
}

/// Law: after as many failures as the limit, all reported at `now` on a
/// fresh gate, a lockout is in force at every later instant before `now`
/// plus the lockout span, and at none from then on.
pub proof fn lemma_locked_until_span_after_limit(max_attempts: nat, lockout: nat, now: nat, t: nat)
    requires
        max_attempts >= 1,
        now <= t,
    ensures
        GateView::fresh(max_attempts, lockout).failed_times(now, max_attempts).is_locked_at(t) == (t
            < now + lockout),
{
    lemma_lockout_after_max_failures(max_attempts, lockout, now, (max_attempts - 1) as nat);
}

} // verus!
