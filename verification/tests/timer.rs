use elemental_core::timer::Timer;

#[test]
fn fresh_timer_is_not_finished() {
    let t = Timer::from_millis(100, false);
    assert!(!t.finished());
    assert_eq!(t.elapsed_ms, 0);
    assert_eq!(t.duration_ms, 100);
}

#[test]
fn non_repeating_timer_finishes_and_clamps() {
    let mut t = Timer::from_millis(100, false);
    t.tick(99);
    assert!(!t.finished());
    t.tick(1);
    assert!(t.finished());
    assert_eq!(t.elapsed_ms, 100);
    // stays finished and clamped on further ticks
    t.tick(500);
    assert!(t.finished());
    assert_eq!(t.elapsed_ms, 100);
}

#[test]
fn repeating_timer_reports_only_wrap_ticks() {
    let mut t = Timer::from_millis(50, true);
    t.tick(49);
    assert!(!t.finished());
    t.tick(2);
    assert!(t.finished());
    assert_eq!(t.elapsed_ms, 1);
    t.tick(10);
    assert!(!t.finished());
    assert_eq!(t.elapsed_ms, 11);
}

#[test]
fn paused_timer_ignores_ticks() {
    let mut t = Timer::from_millis(100, false);
    t.tick(40);
    t.pause();
    t.tick(1000);
    assert_eq!(t.elapsed_ms, 40);
    assert!(!t.finished());
    t.unpause();
    t.tick(60);
    assert!(t.finished());
}

#[test]
fn reset_rewinds_to_start() {
    let mut t = Timer::from_millis(100, false);
    t.tick(100);
    assert!(t.finished());
    t.reset();
    assert!(!t.finished());
    assert_eq!(t.elapsed_ms, 0);
}
