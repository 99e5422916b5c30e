use video_snapshot::counter::InFlightCounter;
use video_snapshot::models::ConcurrentStats;

#[test]
fn fresh_counter_reads_zero() {
    let c = InFlightCounter::new();
    assert_eq!(c.snapshot(), 0);
}

#[test]
fn enter_and_exit_move_the_count() {
    let mut c = InFlightCounter::new();
    c.enter();
    assert_eq!(c.snapshot(), 1);
    c.enter();
    assert_eq!(c.snapshot(), 2);
    c.exit();
    assert_eq!(c.snapshot(), 1);
    c.exit();
    assert_eq!(c.snapshot(), 0);
}

#[test]
fn balanced_lifecycles_return_to_zero() {
    let mut c = InFlightCounter::new();
    // Interleave the lifecycles of many requests; every entry is
    // matched by an exit, so the counter must read zero at the end.
    for _ in 0..50 {
        c.enter();
        c.enter();
        c.exit();
        c.enter();
        c.exit();
        c.exit();
    }
    assert_eq!(c.snapshot(), 0);
}

#[test]
fn stats_message_carries_the_count() {
    let stats = ConcurrentStats::for_count(17);
    assert_eq!(stats.current_requests, 17);
    assert_eq!(stats.message, "requests in flight: 17");
    let stats = ConcurrentStats::for_count(0);
    assert_eq!(stats.message, "requests in flight: 0");
}
