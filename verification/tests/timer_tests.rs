use ember_network_connect::timer::{CountdownTimer, TickAction};

#[test]
fn countdown_counts_to_zero_then_fires_once() {
    let mut t = CountdownTimer::new(3);
    let mut values = vec![t.remaining];
    // Three seconds of counting down.
    for _ in 0..3 {
        assert_eq!(t.tick(), TickAction::CountedDown);
        values.push(t.remaining);
    }
    assert_eq!(values, vec![3, 2, 1, 0]);
    // The first tick at zero fires the overall timeout, exactly once.
    assert_eq!(t.tick(), TickAction::FireOverallTimeout);
    // Afterwards the ticker neither writes nor sends.
    assert_eq!(t.tick(), TickAction::Idle);
    assert_eq!(t.tick(), TickAction::Idle);
    assert_eq!(t.remaining, 0);
}

#[test]
fn countdown_is_non_increasing_and_hits_zero_on_time() {
    let overall_timeout = 10;
    let mut t = CountdownTimer::new(overall_timeout);
    let mut previous = t.remaining;
    for elapsed in 1..=15u64 {
        t.tick();
        assert!(t.remaining <= previous);
        if elapsed >= overall_timeout {
            assert_eq!(t.remaining, 0);
        } else {
            assert_eq!(t.remaining, overall_timeout - elapsed);
        }
        previous = t.remaining;
    }
}

#[test]
fn zero_countdown_fires_immediately_and_only_once() {
    let mut t = CountdownTimer::new(0);
    assert_eq!(t.tick(), TickAction::FireOverallTimeout);
    assert_eq!(t.tick(), TickAction::Idle);
}
