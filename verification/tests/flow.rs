use mechanix_lockscreen::auth::pin::pam::{authentication_failure, setup_failure};
use mechanix_lockscreen::auth::pin::{PinConversation, Policy};
use mechanix_lockscreen::auth::unlock::{unlock_mode, AuthResult, PinAuth, PressAction, UnlockMode};
use mechanix_lockscreen::auth::AuthFinished;
use mechanix_lockscreen::channel::{
    completion_verdict, is_success, verdict_byte, write_step, SingleFlight, WriteStep,
};
use mechanix_lockscreen::events::PinOutcome;
use mechanix_lockscreen::session::{ExitPlan, LockEnd, ManagerStep, SessionFlow, SurfaceStep};
use mechanix_lockscreen::time::{Duration, Instant};

fn at(secs: u64) -> Instant {
    Instant::from_elapsed(Duration::from_secs(secs))
}

#[test]
fn policy_defaults() {
    let p = Policy::new();
    assert_eq!(p.pin_len, 4);
    assert_eq!(Policy::PIN_LEN, 4);
    assert_eq!(p.max_attempts, 5);
    assert_eq!(p.lockout, Duration::from_secs(30));
    let d = Policy::default();
    assert_eq!(d.max_attempts, 5);
}

#[test]
fn verdicts_lead_to_lockout_and_unlock() {
    let mut auth = PinAuth::new(Policy::new(), true);
    let t = at(100);
    assert_eq!(auth.admit_pending(Some("1234".to_string()), t), Some("1234".to_string()));
    assert_eq!(auth.admit_pending(None, t), None);
    for _ in 0..4 {
        assert_eq!(auth.resolve(false, t), (AuthResult::Displayed(PinOutcome::Incorrect), None));
    }
    assert_eq!(
        auth.resolve(false, t),
        (
            AuthResult::Displayed(PinOutcome::LockedOut { secs: 30 }),
            Some(Duration::from_secs(30))
        )
    );
    assert_eq!(auth.admit_pending(Some("1234".to_string()), at(110)), None);
    assert_eq!(
        auth.resolve(false, at(110)),
        (AuthResult::Displayed(PinOutcome::LockedOut { secs: 20 }), None)
    );
    assert!(!auth.lockout_expired(at(129)));
    assert!(auth.lockout_expired(at(130)));
    assert_eq!(auth.admit_pending(Some("1".to_string()), at(130)), Some("1".to_string()));
    assert_eq!(auth.resolve(true, at(131)), (AuthResult::Unlocked, None));
}

#[test]
fn unavailable_method_admits_nothing() {
    let auth = PinAuth::new(Policy::new(), false);
    assert_eq!(auth.admit_pending(Some("1234".to_string()), at(1)), None);
}

#[test]
fn start_up_modes() {
    assert_eq!(unlock_mode(true, true, true), UnlockMode { available: true, open: false });
    assert_eq!(unlock_mode(true, true, false), UnlockMode { available: true, open: true });
    assert_eq!(unlock_mode(false, true, false), UnlockMode { available: false, open: false });
    assert_eq!(unlock_mode(true, false, true), UnlockMode { available: false, open: false });
    assert!(unlock_mode(true, true, true).checks_pins());
    assert!(!unlock_mode(true, true, false).checks_pins());
    assert_eq!(unlock_mode(true, true, true).initial_status(), PinOutcome::Prompt);
    assert_eq!(unlock_mode(false, true, true).initial_status(), PinOutcome::Unavailable);
}

#[test]
fn conversation_hands_pin_over_once() {
    let mut c = PinConversation::new("2468".to_string());
    assert_eq!(c.masked_prompt(), Some("2468".to_string()));
    assert_eq!(c.masked_prompt(), None);
    let finished = AuthFinished(true);
    assert!(finished.0);
}

#[test]
fn single_flight_and_bytes() {
    let mut f = SingleFlight::new();
    assert!(!f.is_busy());
    assert!(f.begin());
    assert!(!f.begin());
    assert!(f.is_busy());
    f.finish();
    assert!(f.begin());
    assert_eq!(verdict_byte(Some(true)), 1);
    assert_eq!(verdict_byte(Some(false)), 0);
    assert_eq!(verdict_byte(None), 0);
    assert_eq!(completion_verdict(7, 6, 1, 1), None);
    assert_eq!(completion_verdict(7, 7, 0, 1), Some(0));
    assert_eq!(completion_verdict(7, 7, 1, 1), Some(1));
    assert!(is_success(1));
    assert!(!is_success(0));
    assert_eq!(write_step(Some(1), false), WriteStep::Done(true));
    assert_eq!(write_step(Some(0), false), WriteStep::Done(false));
    assert_eq!(write_step(None, true), WriteStep::Retry);
    assert_eq!(write_step(None, false), WriteStep::Done(false));
}

#[test]
fn session_creates_one_surface_and_exits_once() {
    let mut s: SessionFlow<u32> = SessionFlow::new();
    assert!(s.takes_output());
    assert!(matches!(s.offer_output(1), SurfaceStep::Defer));
    assert!(matches!(s.on_manager(), ManagerStep::Bind(Some(1))));
    assert!(matches!(s.on_manager(), ManagerStep::Ignore));
    assert!(matches!(s.offer_output(1), SurfaceStep::Create(1, true)));
    assert!(s.is_ready());
    assert!(matches!(s.offer_output(2), SurfaceStep::Discard(2)));
    s.on_locked();
    assert_eq!(
        s.request_exit(),
        Some(ExitPlan { destroy_window: true, lock: Some(LockEnd::UnlockAndDestroy) })
    );
    assert_eq!(s.request_exit(), None);
    assert!(!s.takes_output());
    assert!(matches!(s.on_manager(), ManagerStep::Ignore));
}

#[test]
fn session_exit_before_lock_confirmed() {
    let mut s: SessionFlow<u32> = SessionFlow::new();
    assert!(matches!(s.on_manager(), ManagerStep::Bind(None)));
    assert!(matches!(s.offer_output(5), SurfaceStep::Create(5, true)));
    assert_eq!(
        s.request_exit(),
        Some(ExitPlan { destroy_window: true, lock: Some(LockEnd::Destroy) })
    );
    let mut t: SessionFlow<u32> = SessionFlow::new();
    assert_eq!(t.request_exit(), Some(ExitPlan { destroy_window: false, lock: None }));
}

#[test]
fn pam_error_texts() {
    assert_eq!(
        setup_failure("system error"),
        "PAM setup for service 'mechanix-lockscreen' failed: system error"
    );
    assert_eq!(authentication_failure("auth error"), "authentication failed: auth error");
}

#[test]
fn presses_unlock_only_in_open_mode() {
    assert_eq!(unlock_mode(true, true, false).press_action(), PressAction::Unlock);
    assert_eq!(unlock_mode(true, true, true).press_action(), PressAction::ToPad);
    assert_eq!(unlock_mode(false, false, false).press_action(), PressAction::ToPad);
}

#[test]
fn session_first_output_wins_and_globals_after_exit_are_ignored() {
    let mut s: SessionFlow<u32> = SessionFlow::new();
    assert!(matches!(s.on_manager(), ManagerStep::Bind(None)));
    assert!(matches!(s.on_manager(), ManagerStep::Ignore));
    assert!(matches!(s.offer_output(7), SurfaceStep::Create(7, true)));
    assert!(matches!(s.offer_output(8), SurfaceStep::Discard(8)));
    let mut t: SessionFlow<u32> = SessionFlow::new();
    assert!(matches!(t.offer_output(3), SurfaceStep::Defer));
    assert!(matches!(t.offer_output(4), SurfaceStep::Discard(4)));
    assert_eq!(t.request_exit(), Some(ExitPlan { destroy_window: false, lock: None }));
    assert!(!t.takes_output());
    assert!(matches!(t.on_manager(), ManagerStep::Ignore));
    assert!(!t.is_ready());
}
