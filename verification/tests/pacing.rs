use relay_core::pacing::remaining_tick;

#[test]
fn short_iteration_waits_out_the_rest_of_the_tick() {
    assert_eq!(remaining_tick(50, 20), 30);
    assert_eq!(remaining_tick(50, 0), 50);
    assert_eq!(remaining_tick(50, 49), 1);
}

#[test]
fn iteration_that_fills_the_tick_does_not_wait() {
    assert_eq!(remaining_tick(50, 50), 0);
}

#[test]
fn late_iteration_does_not_wait() {
    assert_eq!(remaining_tick(50, 51), 0);
    assert_eq!(remaining_tick(50, 5_000), 0);
}

#[test]
fn no_minimum_means_no_wait() {
    assert_eq!(remaining_tick(0, 0), 0);
    assert_eq!(remaining_tick(0, 17), 0);
}

#[test]
fn pacing_holds_at_the_limits_of_the_clock() {
    assert_eq!(remaining_tick(u64::MAX, 0), u64::MAX);
    assert_eq!(remaining_tick(u64::MAX, u64::MAX), 0);
    assert_eq!(remaining_tick(u64::MAX, u64::MAX - 1), 1);
    assert_eq!(remaining_tick(0, u64::MAX), 0);
}

#[test]
fn work_and_wait_together_last_at_least_one_tick() {
    let min_tick: u64 = 16;
    for elapsed in 0..40u64 {
        let wait = remaining_tick(min_tick, elapsed);
        assert!(elapsed + wait >= min_tick);
        if elapsed >= min_tick {
            assert_eq!(wait, 0);
        } else {
            assert_eq!(wait, min_tick - elapsed);
        }
    }
}
