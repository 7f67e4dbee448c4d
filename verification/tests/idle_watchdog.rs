use tcp_relay::coordinator::IdleCoordinator;

#[test]
fn totals_accumulate_across_reports() {
    let mut c = IdleCoordinator::new(10, 0);
    c.report(5, 1);
    c.report(0, 2);
    c.report(7, 3);
    assert_eq!(c.total, 12);
    assert_eq!(c.last_activity, 3);
}

#[test]
fn silence_longer_than_the_window_fires_once() {
    let mut c = IdleCoordinator::new(10, 0);
    c.report(4, 3);
    // Exactly the window is still tolerated.
    assert!(!c.poll(13));
    assert!(!c.cancelled);
    // One second past the window fires.
    assert!(c.poll(14));
    assert!(c.cancelled);
    // The broadcast is fire-once: later polls do not fire again.
    assert!(!c.poll(30));
    assert!(c.cancelled);
}

#[test]
fn a_connection_with_no_traffic_at_all_times_out() {
    let mut c = IdleCoordinator::new(10, 100);
    assert!(!c.poll(110));
    assert!(c.poll(111));
}

#[test]
fn steady_traffic_never_times_out() {
    let mut c = IdleCoordinator::new(10, 0);
    let mut now: u64 = 0;
    // Traffic every 5 seconds, polls in between, for a long while.
    for _ in 0..1000 {
        now += 5;
        c.report(1, now);
        assert!(!c.poll(now + 4));
    }
    assert!(!c.cancelled);
    assert_eq!(c.total, 1000);
}

#[test]
fn traffic_resets_the_window_from_either_report() {
    let mut c = IdleCoordinator::new(10, 0);
    c.report(2, 9);
    // Nine seconds of silence before, but the report reset the window.
    assert!(!c.poll(18));
    c.report(2, 19);
    assert!(!c.poll(29));
    assert!(c.poll(30));
}
