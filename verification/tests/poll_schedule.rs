use zephyr::battery::{PollSchedule, MAX_FAILURES, STATIC_POLL_PERIOD};

#[test]
fn static_data_polled_on_first_tick_and_hourly() {
    let mut s = PollSchedule::new();
    let mut due_ticks = Vec::new();
    for tick in 0..(2 * STATIC_POLL_PERIOD + 1) {
        if s.static_poll_due() {
            due_ticks.push(tick);
        }
        assert!(!s.end_tick(false, false));
    }
    assert_eq!(due_ticks, vec![0, STATIC_POLL_PERIOD, 2 * STATIC_POLL_PERIOD]);
}

#[test]
fn recovery_after_more_than_ten_failures() {
    let mut s = PollSchedule::new();
    for _ in 0..5 {
        assert!(!s.end_tick(false, true));
        assert!(!s.end_tick(false, true));
    }
    assert_eq!(s.failure_count(), MAX_FAILURES);
    assert!(s.end_tick(false, true));
    assert_eq!(s.failure_count(), 0);
    // the tick count restarts and then advances, so the next static poll is an hour away
    assert!(!s.static_poll_due());
}

#[test]
fn two_failures_in_one_tick_count_twice() {
    let mut s = PollSchedule::new();
    assert!(!s.end_tick(true, true));
    assert_eq!(s.failure_count(), 2);
    for _ in 0..4 {
        assert!(!s.end_tick(true, true));
    }
    assert_eq!(s.failure_count(), 10);
    assert!(s.end_tick(true, false));
    assert_eq!(s.failure_count(), 0);
}
