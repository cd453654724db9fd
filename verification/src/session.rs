//! Decisions of the ext-session-lock session: when the lock surface is
//! created, when the lock object is requested, and how the session ends.

use vstd::prelude::*;

verus! {

/// Where the lock surface stands. An output that arrives before the lock
/// manager waits in `Armed`.
pub enum LockSurfaceState<O> {
    Waiting,
    Armed(O),
    Ready,
}

/// What to do with a newly announced lock-manager global.
pub enum ManagerStep<O> {
    /// Already bound, or the session is ending: ignore it.
    Ignore,
    /// Bind it; then offer the output that was waiting, if any.
    Bind(Option<O>),
}

/// What to do with an output offered for the lock surface.
pub enum SurfaceStep<O> {
    /// A lock surface exists already: drop the output.
    Discard(O),
    /// No lock manager yet: the output is kept until one is bound.
    Defer,
    /// Create the lock surface on the output; request the lock object first
    /// when `new_lock` is set.
    Create(O, bool),
}

/// How the lock object is disposed of when the session ends.
#[derive(Debug, Clone, Copy, PartialEq, Eq, Structural)]
pub enum LockEnd {
    /// The compositor confirmed the lock: unlock, then destroy.
    UnlockAndDestroy,
    /// Never confirmed: only destroy.
    Destroy,
}

/// The steps of ending the session.
#[derive(Debug, Clone, Copy, PartialEq, Eq, Structural)]
pub struct ExitPlan {
    pub destroy_window: bool,
    pub lock: Option<LockEnd>,
}

/// The abstract state of a [`SessionFlow`].
pub struct SessionView<O> {
    pub manager_bound: bool,
    pub lock_requested: bool,
    pub is_locked: bool,
    pub exiting: bool,
    pub surface: LockSurfaceState<O>,
}

impl<O> SessionView<O> {
    /// The answer to a newly announced lock-manager global.
    pub open spec fn manager_step(self) -> ManagerStep<O> {
        if self.exiting || self.manager_bound {
            ManagerStep::Ignore
        } else {
            match self.surface {
                LockSurfaceState::Armed(o) => ManagerStep::Bind(Some(o)),
                _ => ManagerStep::Bind(None),
            }
        }
    }

    pub open spec fn after_manager(self) -> SessionView<O> {
        if self.exiting || self.manager_bound {
            self
        } else {
            SessionView {
                manager_bound: true,
                surface: match self.surface {
                    LockSurfaceState::Armed(_) => LockSurfaceState::Waiting,
                    other => other,
                },
                ..self
            }
        }
    }

    /// The answer to an output offered for the lock surface.
    pub open spec fn surface_step(self, output: O) -> SurfaceStep<O> {
        if !(self.surface is Waiting) {
            SurfaceStep::Discard(output)
        } else if !self.manager_bound {
            SurfaceStep::Defer
        } else {
            SurfaceStep::Create(output, !self.lock_requested)
        }
    }

    pub open spec fn after_offer(self, output: O) -> SessionView<O> {
        if !(self.surface is Waiting) {
            self
        } else if !self.manager_bound {
            SessionView { surface: LockSurfaceState::Armed(output), ..self }
        } else {
            SessionView { lock_requested: true, surface: LockSurfaceState::Ready, ..self }
        }
    }

    pub open spec fn after_locked(self) -> SessionView<O> {
        SessionView { is_locked: true, ..self }
    }

    /// The steps of ending the session, or none when it is already ending.
    pub open spec fn exit_plan(self) -> Option<ExitPlan> {
        if self.exiting {
            None
        } else {
            Some(
                ExitPlan {
                    destroy_window: self.surface is Ready,
                    lock: if !self.lock_requested {
                        None
                    } else if self.is_locked {
                        Some(LockEnd::UnlockAndDestroy)
                    } else {
                        Some(LockEnd::Destroy)
                    },
                },
            )
        }
    }

    pub open spec fn after_exit(self) -> SessionView<O> {
        if self.exiting {
            self
        } else {
            SessionView { exiting: true, lock_requested: false, ..self }
        }
    }
}

/// The session's decisions; the wayland objects themselves stay with the
/// caller, which carries out each step.
pub struct SessionFlow<O> {
    manager_bound: bool,
    lock_requested: bool,
    is_locked: bool,
    exiting: bool,
    surface: LockSurfaceState<O>,
}

impl<O> View for SessionFlow<O> {
    type V = SessionView<O>;

    closed spec fn view(&self) -> SessionView<O> {
        SessionView {
            manager_bound: self.manager_bound,
            lock_requested: self.lock_requested,
            is_locked: self.is_locked,
            exiting: self.exiting,
            surface: self.surface,
        }
    }
}

impl<O> SessionFlow<O> {
    pub fn new() -> (s: SessionFlow<O>)
        ensures
            !s@.manager_bound && !s@.lock_requested && !s@.is_locked && !s@.exiting,
            s@.surface is Waiting,
    {
        SessionFlow {
            manager_bound: false,
            lock_requested: false,
            is_locked: false,
            exiting: false,
            surface: LockSurfaceState::Waiting,
        }
    }

    /// Whether the lock surface, and with it the lock screen window, exists.
    pub fn is_ready(&self) -> (b: bool)
        ensures
            b == (self@.surface is Ready),
    {
        match self.surface {
            LockSurfaceState::Ready => true,
            _ => false,
        }
    }

    /// Whether a newly announced output is taken (bound and offered): not
    /// once the session is ending.
    pub fn takes_output(&self) -> (b: bool)
        ensures
            b == !self@.exiting,
    {
        !self.exiting
    }

    /// A lock-manager global was announced: bind the first one, unless the
    /// session is ending, and hand back the output that waited for it.
    pub fn on_manager(&mut self) -> (step: ManagerStep<O>)
        ensures
            step == old(self)@.manager_step(),
            final(self)@ == old(self)@.after_manager(),
    {
        if self.exiting || self.manager_bound {
            return ManagerStep::Ignore;
        }
        self.manager_bound = true;
        let mut taken = LockSurfaceState::Waiting;
        std::mem::swap(&mut taken, &mut self.surface);
        match taken {
            LockSurfaceState::Armed(output) => ManagerStep::Bind(Some(output)),
            other => {
                self.surface = other;
                ManagerStep::Bind(None)
            },
        }
    }

    /// An output is offered for the lock surface. Only the first output
    /// gets one; before the lock manager is bound the output waits.
    pub fn offer_output(&mut self, output: O) -> (step: SurfaceStep<O>)
        ensures
            step == old(self)@.surface_step(output),
            final(self)@ == old(self)@.after_offer(output),
    {
        match self.surface {
            LockSurfaceState::Waiting => {},
            _ => {
                return SurfaceStep::Discard(output);
            },
        }
        if !self.manager_bound {
            self.surface = LockSurfaceState::Armed(output);
            return SurfaceStep::Defer;
        }
        let new_lock = !self.lock_requested;
        self.lock_requested = true;
        self.surface = LockSurfaceState::Ready;
        SurfaceStep::Create(output, new_lock)
    }

    /// The compositor confirmed the lock.
    pub fn on_locked(&mut self)
        ensures
            final(self)@ == old(self)@.after_locked(),
    {
        self.is_locked = true;
    }

    /// Ending the session, once: the window goes if it exists, and the lock
    /// object, if requested, is unlocked when the lock was confirmed and
    /// destroyed either way. A second request does nothing.
    pub fn request_exit(&mut self) -> (plan: Option<ExitPlan>)
        ensures
            plan == old(self)@.exit_plan(),
            final(self)@ == old(self)@.after_exit(),
    {
        if self.exiting {
            return None;
        }
        self.exiting = true;
        let destroy_window = self.is_ready();
        let lock = if !self.lock_requested {
            None
        } else if self.is_locked {
            Some(LockEnd::UnlockAndDestroy)
        } else {
            Some(LockEnd::Destroy)
        };
        self.lock_requested = false;
        Some(ExitPlan { destroy_window, lock })
    }
}

/// What reaches the session from outside: a lock-manager global, an output
/// global (already bound by the caller), the compositor's lock confirmation,
/// or a request to end the session.
pub enum SessionEvent<O> {
    ManagerGlobal,
    OutputGlobal(O),
    Locked,
    ExitRequested,
}

/// A session driven by a sequence of events, with what has happened so far:
/// how many lock surfaces were created, whether a lock-manager global and
/// which output global were seen first before the session started ending,
/// and the output the lock surface was created on.
pub struct SessionRun<O> {
    pub flow: SessionView<O>,
    pub surfaces: nat,
    pub manager_seen: bool,
    pub first_output: Option<O>,
    pub surface_on: Option<O>,
}

impl<O> SessionView<O> {
    /// The state of a session that has seen nothing yet.
    pub open spec fn initial() -> SessionView<O> {
        SessionView {
            manager_bound: false,
            lock_requested: false,
            is_locked: false,
            exiting: false,
            surface: LockSurfaceState::Waiting,
        }
    }
}

impl<O> SessionRun<O> {
    /// Offers `output` for the lock surface, counting a created surface.
    pub open spec fn offered(self, output: O) -> SessionRun<O> {
        match self.flow.surface_step(output) {
            SurfaceStep::Create(o, _) => SessionRun {
                flow: self.flow.after_offer(output),
                surfaces: self.surfaces + 1,
                surface_on: Some(o),
                ..self
            },
            _ => SessionRun { flow: self.flow.after_offer(output), ..self },
        }
    }

    /// One event, handled as the session handles it: a new manager is bound
    /// (and a waiting output offered) through `on_manager`, an output is
    /// offered through `offer_output` when `takes_output` allows it, and the
    /// confirmation and the exit go to `on_locked` and `request_exit`.
    pub open spec fn step(self, ev: SessionEvent<O>) -> SessionRun<O> {
        match ev {
            SessionEvent::ManagerGlobal => match self.flow.manager_step() {
                ManagerStep::Ignore => self,
                ManagerStep::Bind(armed) => {
                    let bound = SessionRun {
                        flow: self.flow.after_manager(),
                        manager_seen: true,
                        ..self
                    };
                    match armed {
                        Some(o) => bound.offered(o),
                        None => bound,
                    }
                },
            },
            SessionEvent::OutputGlobal(o) => if self.flow.exiting {
                self
            } else {
                let seen = SessionRun {
                    first_output: if self.first_output is None {
                        Some(o)
                    } else {
                        self.first_output
                    },
                    ..self
                };
                seen.offered(o)
            },
            SessionEvent::Locked => SessionRun { flow: self.flow.after_locked(), ..self },
            SessionEvent::ExitRequested => SessionRun { flow: self.flow.after_exit(), ..self },
        }
    }

    /// What holds after every sequence of events.
    pub open spec fn consistent(self) -> bool {
        &&& self.manager_seen == self.flow.manager_bound
        &&& match self.flow.surface {
            LockSurfaceState::Waiting => self.surfaces == 0 && self.first_output is None,
            LockSurfaceState::Armed(o) => self.surfaces == 0 && self.first_output == Some(o)
                && !self.flow.manager_bound,
            LockSurfaceState::Ready => self.surfaces == 1 && self.first_output is Some
                && self.surface_on == self.first_output && self.flow.manager_bound,
        }
    }
}

/// The session after the events `evs`, in order, from a fresh start.
pub open spec fn run<O>(evs: Seq<SessionEvent<O>>) -> SessionRun<O>
    decreases evs.len(),
{
    if evs.len() == 0 {
        SessionRun {
            flow: SessionView::initial(),
            surfaces: 0,
            manager_seen: false,
            first_output: None,
            surface_on: None,
        }
    } else {
        run(evs.drop_last()).step(evs.last())
    }
}

proof fn lemma_run_consistent<O>(evs: Seq<SessionEvent<O>>)
    ensures
        run(evs).consistent(),
    decreases evs.len(),
{
    if evs.len() > 0 {
        lemma_run_consistent(evs.drop_last());
    }
}

/// Law: over any sequence of events, at most one lock surface is created.
/// It exists exactly when a lock-manager global and an output global have
/// both been seen before the session started ending, and it is created on
/// the first output seen.
pub proof fn lemma_one_surface_over_any_run<O>(evs: Seq<SessionEvent<O>>)
    ensures
        run(evs).surfaces <= 1,
        (run(evs).surfaces == 1) == (run(evs).flow.surface is Ready),
        (run(evs).surfaces == 1) == (run(evs).manager_seen && run(evs).first_output is Some),
        run(evs).surfaces == 1 ==> run(evs).surface_on == run(evs).first_output,
{
    lemma_run_consistent(evs);
}

/// Law: once the session is ending, no further global changes anything, and
/// a second lock-manager global is never bound.
pub proof fn lemma_globals_after_exit_or_bind<O>(evs: Seq<SessionEvent<O>>, output: O)
    ensures
        run(evs).flow.exiting ==> run(evs.push(SessionEvent::ManagerGlobal)) == run(evs)
            && run(evs.push(SessionEvent::OutputGlobal(output))) == run(evs),
        run(evs).manager_seen ==> run(evs).flow.manager_step() is Ignore && run(
            evs.push(SessionEvent::ManagerGlobal),
        ) == run(evs),
{
    assert(evs.push(SessionEvent::<O>::ManagerGlobal).drop_last() =~= evs);
    assert(evs.push(SessionEvent::OutputGlobal(output)).drop_last() =~= evs);
    lemma_run_consistent(evs);
}

/// Law: the session ends once. The first request plans the exit, later ones
/// plan nothing and change nothing, and once ending, new globals are ignored.
pub proof fn lemma_exit_happens_once<O>(s: SessionView<O>)
    ensures
        !s.exiting ==> s.exit_plan() is Some,
        s.after_exit().exiting,
        s.after_exit().exit_plan() is None,
        s.after_exit().after_exit() == s.after_exit(),
        s.after_exit().manager_step() is Ignore,
{
}

/// Law: the lock is only ever unlocked after the compositor confirmed it,
/// and the lock object is disposed of exactly when it was requested.
pub proof fn lemma_unlock_only_when_locked<O>(s: SessionView<O>)
    ensures
        s.exit_plan() matches Some(p) ==> (p.lock == Some(LockEnd::UnlockAndDestroy) ==> s.is_locked)
            && (p.lock is Some <==> s.lock_requested),
{
}

/// Law: at most one lock surface is created. Once it exists, every offered
/// output is discarded and nothing changes; the lock object is requested
/// with the first surface only.
pub proof fn lemma_one_lock_surface<O>(s: SessionView<O>, first: O, later: O)
    ensures
        s.surface is Ready ==> s.surface_step(later) == SurfaceStep::Discard(later)
            && s.after_offer(later) == s,
        s.surface_step(first) matches SurfaceStep::Create(_, new_lock) ==> new_lock
            == !s.lock_requested && s.after_offer(first).surface is Ready
            && s.after_offer(first).lock_requested && s.after_offer(first).surface_step(later)
            == SurfaceStep::Discard(later),
{
}

/// Law: an output that arrives before the lock manager waits for it, and is
/// handed back when the manager is bound.
pub proof fn lemma_output_waits_for_manager<O>(s: SessionView<O>, output: O)
    requires
        s.surface is Waiting,
        !s.manager_bound,
        !s.exiting,
    ensures
        s.surface_step(output) == SurfaceStep::<O>::Defer,
        s.after_offer(output).manager_step() == ManagerStep::Bind(Some(output)),
        s.after_offer(output).after_manager().surface_step(output) == SurfaceStep::Create(
            output,
            !s.lock_requested,
        ),
{
}

} // verus!
