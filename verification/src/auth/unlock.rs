//! Decisions of the PIN unlock flow: which offered PINs are submitted, and
//! what a verdict leads to.

use vstd::prelude::*;

use super::pin::gate::{Gate, GateView};
use super::pin::policy::Policy;
use crate::events::PinOutcome;
use crate::time::{max_duration_nanos, Duration, Instant, NANOS_PER_SEC};

verus! {

/// What a verdict leads to.
#[derive(Debug, Clone, Copy, PartialEq, Eq, Structural)]
pub enum AuthResult {
    Unlocked,
    Displayed(PinOutcome),
}

/// The PIN unlock flow: the policy, the attempt gate, and whether the PIN
/// method is usable at all.
pub struct PinAuth {
    policy: Policy,
    gate: Gate,
    available: bool,
}

impl PinAuth {
    /// The throttle uses the attempt limit and lockout span of the policy.
    pub closed spec fn well_formed(&self) -> bool {
        &&& self.gate@.lockout == self.policy.lockout@
        &&& self.gate@.max_attempts == self.policy.max_attempts
    }

    pub closed spec fn gate_state(&self) -> GateView {
        self.gate@
    }

    pub closed spec fn policy_spec(&self) -> Policy {
        self.policy
    }

    pub closed spec fn is_available(&self) -> bool {
        self.available
    }

    /// Whether a PIN offered at `now` is submitted.
    pub open spec fn admits(&self, now: nat) -> bool {
        self.is_available() && !self.gate_state().is_locked_at(now)
    }

    pub fn new(policy: Policy, available: bool) -> (a: PinAuth)
        ensures
            a.gate_state() == GateView::fresh(policy.max_attempts as nat, policy.lockout@),
            a.policy_spec() == policy,
            a.is_available() == available,
            a.well_formed(),
    {
        PinAuth { policy, gate: Gate::new(policy.max_attempts, policy.lockout), available }
    }

    /// The PIN to submit, taken from the hand-off slot: none when the PIN
    /// method is unavailable or a lockout is in force, in which case the
    /// offered PIN is dropped.
    pub fn admit_pending(&self, pending: Option<String>, now: Instant) -> (pin: Option<String>)
        ensures
            pin == (if self.admits(now@) {
                pending
            } else {
                None
            }),
    {
        let pin = pending?;
        if !self.available || self.gate.lockout_remaining_is_some(now) {
            return None;
        }
        Some(pin)
    }

    /// Acts on the verdict `ok` for the last submitted PIN, received at `now`.
    /// A success unlocks and clears the throttle. A failure during a lockout
    /// shows the seconds still to wait; any other failure is counted, and
    /// when that engages a lockout, the whole lockout is shown and the span
    /// of a one-shot wake-up timer is returned.
    pub fn resolve(&mut self, ok: bool, now: Instant) -> (r: (AuthResult, Option<Duration>))
        requires
            old(self).well_formed(),
            !ok ==> old(self).gate_state().remaining_fits(now@),
            !ok && old(self).gate_state().engages_lockout(now@) ==> now@ + old(
                self,
            ).gate_state().lockout <= max_duration_nanos(),
        ensures
            final(self).well_formed(),
            final(self).policy_spec() == old(self).policy_spec(),
            final(self).is_available() == old(self).is_available(),
            ok ==> r.0 == AuthResult::Unlocked && r.1 is None && final(self).gate_state() == old(
                self,
            ).gate_state().after_succeeded(),
            !ok ==> final(self).gate_state() == old(self).gate_state().after_failed(now@),
            !ok && old(self).gate_state().is_locked_at(now@) ==> r.1 is None && (
            old(self).gate_state().remaining_at(now@) matches Some(secs) && r.0
                == AuthResult::Displayed(PinOutcome::LockedOut { secs: secs as u32 })),
            !ok && old(self).gate_state().engages_lockout(now@) ==> (r.1 matches Some(d) && d@
                == old(self).policy_spec().lockout@) && r.0 == AuthResult::Displayed(
                PinOutcome::LockedOut {
                    secs: (old(self).policy_spec().lockout@ / (NANOS_PER_SEC as nat)) as u32,
                },
            ),
            !ok && !old(self).gate_state().is_locked_at(now@) && !old(
                self,
            ).gate_state().engages_lockout(now@) ==> r == (
                AuthResult::Displayed(PinOutcome::Incorrect),
                None::<Duration>,
            ),
    {
        if ok {
            self.gate.succeeded();
            return (AuthResult::Unlocked, None);
        }
        if let Some(secs) = self.gate.lockout_remaining(now) {
            proof {
                super::pin::gate::lemma_failed_during_lockout_is_ignored(self.gate@, now@);
            }
            return (AuthResult::Displayed(PinOutcome::LockedOut { secs }), None);
        }
        if self.gate.failed(now).is_some() {
            let lockout = self.policy.lockout;
            return (
                AuthResult::Displayed(PinOutcome::LockedOut { secs: lockout.as_secs() as u32 }),
                Some(lockout),
            );
        }
        (AuthResult::Displayed(PinOutcome::Incorrect), None)
    }

    /// Clears a lockout that has run out by `now`; reports whether it did.
    pub fn lockout_expired(&mut self, now: Instant) -> (expired: bool)
        requires
            old(self).well_formed(),
        ensures
            final(self).well_formed(),
            expired == old(self).gate_state().tick_expires(now@),
            final(self).gate_state() == old(self).gate_state().after_tick(now@),
            final(self).policy_spec() == old(self).policy_spec(),
            final(self).is_available() == old(self).is_available(),
    {
        self.gate.tick(now)
    }
}

/// How the lock screen starts.
#[derive(Debug, Clone, Copy, PartialEq, Eq, Structural)]
pub struct UnlockMode {
    /// The PIN method can be used: the PAM service file is valid and the
    /// session user is known.
    pub available: bool,
    /// No PIN was ever set for the user: a tap unlocks.
    pub open: bool,
}

/// What a press on the lock screen does.
#[derive(Debug, Clone, Copy, PartialEq, Eq, Structural)]
pub enum PressAction {
    /// The press unlocks the session at once.
    Unlock,
    /// The press goes to the PIN pad.
    ToPad,
}

impl UnlockMode {
    /// In open mode a tap anywhere unlocks; otherwise presses go to the pad.
    pub fn press_action(&self) -> (a: PressAction)
        ensures
            a == (if self.open {
                PressAction::Unlock
            } else {
                PressAction::ToPad
            }),
    {
        if self.open {
            PressAction::Unlock
        } else {
            PressAction::ToPad
        }
    }

    /// PINs are submitted for checking only when the method is available
    /// and a PIN exists.
    pub fn checks_pins(&self) -> (b: bool)
        ensures
            b == (self.available && !self.open),
    {
        self.available && !self.open
    }

    /// What the PIN screen shows first.
    pub fn initial_status(&self) -> (s: PinOutcome)
        ensures
            s == (if self.available {
                PinOutcome::Prompt
            } else {
                PinOutcome::Unavailable
            }),
    {
        if self.available {
            PinOutcome::Prompt
        } else {
            PinOutcome::Unavailable
        }
    }
}

/// The start-up mode from whether the service file was accepted, whether the
/// session user is known, and whether the PIN book lists that user.
pub fn unlock_mode(config_valid: bool, user_known: bool, pin_listed: bool) -> (m: UnlockMode)
    ensures
        m.available == (config_valid && user_known),
        m.open == (config_valid && user_known && !pin_listed),
        m.open ==> m.available,
{
    if config_valid && user_known {
        UnlockMode { available: true, open: !pin_listed }
    } else {
        UnlockMode { available: false, open: false }
    }
}

} // verus!
