use cw_trainer::timer::{CountdownTimer, MAX_TIMER_MS};

#[test]
fn timer_counts_down_and_clamps() {
    let mut t = CountdownTimer::new(2000);
    assert!(!t.finished());
    t.advance(1999);
    assert!(!t.finished());
    t.advance(1);
    assert!(t.finished());
    // Once finished the timer stays finished, however much time passes.
    t.advance(u64::MAX);
    assert!(t.finished());
    assert_eq!(t.elapsed_ms, 2000);
}

#[test]
fn timer_reset_rewinds() {
    let mut t = CountdownTimer::new(800);
    t.advance(800);
    assert!(t.finished());
    t.reset();
    assert!(!t.finished());
    assert_eq!(t.elapsed_ms, 0);
    assert_eq!(t.duration_ms, 800);
}

#[test]
fn three_tenths_boundary_is_inclusive() {
    let mut t = CountdownTimer::new(2000);
    t.advance(599);
    assert!(!t.three_tenths_elapsed());
    t.advance(1);
    assert!(t.three_tenths_elapsed());
}

#[test]
fn maximum_duration_is_accepted() {
    let mut t = CountdownTimer::new(MAX_TIMER_MS);
    t.advance(MAX_TIMER_MS - 1);
    assert!(!t.finished());
    t.advance(1);
    assert!(t.finished());
}
