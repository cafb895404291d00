//! Tests of the terminator: fresh timeouts, latching, cancel clearing, and
//! the shared cancel flag.
use stripnest::rng::{resolve_seed, Rng};
use stripnest::terminator::{BasicTerminator, CancelFlag, CtrlCTerminator, Terminator};

#[test]
fn fresh_timeout_not_killed_before_deadline() {
    let mut t = BasicTerminator::new();
    t.new_timeout_at(100, 50);
    assert!(!t.check_at(100));
    assert!(!t.check_at(149));
    assert!(t.check_at(150));
}

#[test]
fn kill_latches() {
    let mut t = BasicTerminator::new();
    t.new_timeout_at(100, 50);
    assert!(t.check_at(200));
    // Once reported, the kill stays, even against an earlier clock value.
    assert!(t.check_at(100));
}

#[test]
fn new_timeout_clears_latched_cancel() {
    let mut t = BasicTerminator::new();
    t.signal_cancel();
    assert!(t.check_at(0));
    t.new_timeout_at(1000, 500);
    assert!(!t.check_at(1000));
    assert!(!t.check_at(1499));
    assert!(t.check_at(1500));
}

#[test]
fn unarmed_terminator_never_fires() {
    let mut t = BasicTerminator::new();
    assert!(!t.check_at(0));
    assert!(!t.check_at(u64::MAX));
    assert!(!t.is_kill());
    assert_eq!(t.timeout_at(), None);
}

#[test]
fn clear_timeout_drops_deadline() {
    let mut t = BasicTerminator::new();
    t.new_timeout_at(0, 10);
    assert_eq!(t.timeout_at(), Some(10));
    t.clear_timeout();
    assert_eq!(t.timeout_at(), None);
    assert!(!t.check_at(u64::MAX));
}

#[test]
fn real_clock_timeout_far_in_future() {
    let mut t = BasicTerminator::new();
    t.new_timeout(3_600_000);
    assert!(!t.is_kill());
}

#[test]
fn real_clock_zero_timeout_fires_at_once() {
    let mut t = BasicTerminator::new();
    t.new_timeout(0);
    assert!(t.is_kill());
}

#[test]
fn cancel_flag_is_shared() {
    let flag = CancelFlag::new();
    let handle = flag.duplicate();
    assert!(!flag.load());
    handle.store(true);
    assert!(flag.load());
}

#[test]
fn ctrlc_terminator_polls_flag_and_clears_on_rearm() {
    let flag = CancelFlag::new();
    let handle = flag.duplicate();
    let mut t = CtrlCTerminator::new(flag);
    t.new_timeout(3_600_000);
    assert!(!t.is_kill());
    handle.store(true);
    assert!(t.is_kill());
    // Arming a new timeout clears the signal for the next phase.
    t.new_timeout(3_600_000);
    assert!(!t.is_kill());
    assert!(t.timeout_at().is_some());
}

#[test]
fn explicit_seed_is_used_as_given() {
    assert_eq!(resolve_seed(Some(8780830896941405304)), 8780830896941405304);
}

#[test]
fn system_seed_feeds_a_working_generator() {
    // With no configured seed one is drawn from the system; whatever came
    // back must drive the generator deterministically from there on.
    let seed = resolve_seed(None);
    let mut a = Rng::seed_from_u64(seed);
    let mut b = Rng::seed_from_u64(seed);
    assert_eq!(a.next_u64(), b.next_u64());
}

#[test]
fn generator_streams_are_deterministic() {
    let mut a = Rng::seed_from_u64(42);
    let mut b = Rng::seed_from_u64(42);
    for _ in 0..100 {
        assert_eq!(a.next_u64(), b.next_u64());
    }
    let mut c = Rng::seed_from_u64(43);
    assert_ne!(Rng::seed_from_u64(42).next_u64(), c.next_u64());
}

#[test]
fn generator_ranges_respect_bounds() {
    let mut r = Rng::seed_from_u64(7);
    for _ in 0..200 {
        let v = r.next_below(13);
        assert!(v < 13);
        let w = r.next_in_range(5, 9);
        assert!((5..=9).contains(&w));
    }
}

#[test]
fn derived_children_are_independent_streams() {
    let mut parent1 = Rng::seed_from_u64(99);
    let mut parent2 = Rng::seed_from_u64(99);
    let mut child1 = parent1.derive_child();
    let mut child2 = parent2.derive_child();
    for _ in 0..50 {
        assert_eq!(child1.next_u64(), child2.next_u64());
    }
    // The parents continue their own stream, unaffected by the children.
    assert_eq!(parent1.next_u64(), parent2.next_u64());
}
