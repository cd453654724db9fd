use mechanix_lockscreen::auth::pin::Gate;
use mechanix_lockscreen::time::{Duration, Instant};

fn gate() -> Gate {
    Gate::new(3, Duration::from_secs(30))
}

fn start() -> Instant {
    Instant::from_elapsed(Duration::from_secs(1_000))
}

#[test]
fn failures_until_lockout() {
    let mut g = gate();
    let t0 = start();
    assert_eq!(g.failed(t0), None);
    assert_eq!(g.failed(t0), None);
    assert_eq!(g.attempts(), 2);
    assert_eq!(g.failed(t0), Some(Duration::from_secs(30)));
    assert_eq!(g.attempts(), 0);
    assert_eq!(g.lockout_remaining(t0), Some(30));
}

#[test]
fn lockout_expires() {
    let mut g = gate();
    let t0 = start();
    for _ in 0..3 {
        g.failed(t0);
    }
    let t1 = t0.plus(Duration::from_secs(31));
    assert!(g.tick(t1));
    assert_eq!(g.lockout_remaining(t1), None);
    assert_eq!(g.attempts(), 0);
}

#[test]
fn lockout_remaining_counts_up() {
    let mut g = gate();
    let t0 = start();
    for _ in 0..3 {
        g.failed(t0);
    }
    assert_eq!(g.lockout_remaining(t0), Some(30));
    assert_eq!(g.lockout_remaining(t0.plus(Duration::from_secs(29))), Some(1));
    assert_eq!(g.lockout_remaining(t0.plus(Duration::from_secs(30))), None);
}

#[test]
fn failed_during_lockout_is_ignored() {
    let mut g = gate();
    let t0 = start();
    for _ in 0..3 {
        g.failed(t0);
    }
    assert_eq!(g.failed(t0.plus(Duration::from_secs(1))), None);
    assert_eq!(g.attempts(), 0);
    assert_eq!(g.lockout_remaining(t0.plus(Duration::from_secs(1))), Some(29));
}

#[test]
fn remaining_rounds_up_from_one_millisecond() {
    let mut g = gate();
    let t0 = start();
    for _ in 0..3 {
        g.failed(t0);
    }
    // 29.999 s left: 29 whole seconds plus a part of at least a millisecond.
    assert_eq!(g.lockout_remaining(t0.plus(Duration::new(0, 1_000_000))), Some(30));
    // 0.5 ms left: no whole second and less than a millisecond.
    assert_eq!(g.lockout_remaining(t0.plus(Duration::new(29, 999_500_000))), Some(0));
    assert_eq!(g.lockout_remaining(t0.plus(Duration::new(29, 998_000_000))), Some(1));
}

#[test]
fn tick_before_expiry_keeps_lockout() {
    let mut g = gate();
    let t0 = start();
    for _ in 0..3 {
        g.failed(t0);
    }
    assert!(!g.tick(t0.plus(Duration::from_secs(29))));
    assert_eq!(g.lockout_remaining(t0.plus(Duration::from_secs(29))), Some(1));
    assert!(!gate().tick(t0));
}

#[test]
fn success_clears_counter_and_lockout() {
    let mut g = gate();
    let t0 = start();
    g.failed(t0);
    g.succeeded();
    assert_eq!(g.attempts(), 0);
    for _ in 0..3 {
        g.failed(t0);
    }
    assert_eq!(g.lockout_remaining(t0), Some(30));
    g.succeeded();
    assert_eq!(g.lockout_remaining(t0), None);
    assert_eq!(g.failed(t0), None);
    assert_eq!(g.attempts(), 1);
}

#[test]
fn counting_restarts_after_expiry() {
    let mut g = gate();
    let t0 = start();
    for _ in 0..3 {
        g.failed(t0);
    }
    let t1 = t0.plus(Duration::from_secs(40));
    assert_eq!(g.failed(t1), None);
    assert_eq!(g.attempts(), 1);
    assert_eq!(g.lockout_remaining(t1), None);
}

#[test]
fn limit_of_one_locks_on_first_failure() {
    let mut g = Gate::new(1, Duration::from_secs(5));
    let t0 = start();
    assert_eq!(g.failed(t0), Some(Duration::from_secs(5)));
    assert_eq!(g.lockout_remaining(t0), Some(5));
    let c = g.clone();
    assert_eq!(c.lockout_remaining(t0), Some(5));
}

#[test]
fn zero_lockout_is_never_in_force() {
    let mut g = Gate::new(1, Duration::from_secs(0));
    let t0 = start();
    assert_eq!(g.failed(t0), Some(Duration::from_secs(0)));
    assert_eq!(g.lockout_remaining(t0), None);
}

#[test]
fn durations_and_instants() {
    let d = Duration::new(2, 1_500_000_000);
    assert_eq!(d.as_secs(), 3);
    assert_eq!(d.subsec_nanos(), 500_000_000);
    assert_eq!(d.subsec_millis(), 500);
    assert_eq!(d.as_nanos(), 3_500_000_000);
    let t = Instant::from_elapsed(Duration::from_secs(10));
    let u = t.plus(d);
    assert!(t.is_before(&u));
    assert!(!u.is_before(&t));
    assert_eq!(u.saturating_duration_since(t), d);
    assert_eq!(t.saturating_duration_since(u), Duration::from_secs(0));
    assert_eq!(u.elapsed().as_nanos(), 13_500_000_000);
}
