use rouxinold_autohalt::tracker::ActivityState;

const SEC: u128 = 1_000_000_000;

#[test]
fn new_tracker_counts_the_start_as_last_activity() {
    let state = ActivityState::new(42 * SEC);
    assert_eq!(state.last_active_at(), 42 * SEC);
    assert_eq!(state.idle_duration(42 * SEC), 0);
}

#[test]
fn idle_duration_is_the_time_since_last_activity() {
    let state = ActivityState::new(10 * SEC);
    assert_eq!(state.idle_duration(10 * SEC + 1), 1);
    assert_eq!(state.idle_duration(17 * SEC), 7 * SEC);
    assert_eq!(state.idle_duration(u128::MAX), u128::MAX - 10 * SEC);
}

#[test]
fn idle_duration_is_zero_for_a_reading_before_the_last_activity() {
    let state = ActivityState::new(10 * SEC);
    assert_eq!(state.idle_duration(9 * SEC), 0);
    assert_eq!(state.idle_duration(0), 0);
    assert!(!state.is_idle(0, 0));
}

#[test]
fn record_activity_moves_the_last_activity() {
    let mut state = ActivityState::new(0);
    state.record_activity(3 * SEC);
    assert_eq!(state.last_active_at(), 3 * SEC);
    assert_eq!(state.idle_duration(3 * SEC), 0);
    assert_eq!(state.idle_duration(5 * SEC), 2 * SEC);
}

#[test]
fn record_activity_takes_an_earlier_reading_as_given() {
    let mut state = ActivityState::new(8 * SEC);
    state.record_activity(2 * SEC);
    assert_eq!(state.last_active_at(), 2 * SEC);
    assert_eq!(state.idle_duration(8 * SEC), 6 * SEC);
}

#[test]
fn exactly_the_timeout_is_not_idle() {
    let state = ActivityState::new(100);
    let timeout = 5 * SEC;
    assert_eq!(state.idle_duration(100 + timeout), timeout);
    assert!(!state.is_idle(100 + timeout, timeout));
}

#[test]
fn one_instant_past_the_timeout_is_idle() {
    let state = ActivityState::new(100);
    let timeout = 5 * SEC;
    assert!(state.is_idle(100 + timeout + 1, timeout));
}

#[test]
fn not_idle_before_the_timeout() {
    let state = ActivityState::new(100);
    let timeout = 5 * SEC;
    assert!(!state.is_idle(100, timeout));
    assert!(!state.is_idle(100 + timeout - 1, timeout));
}

#[test]
fn zero_timeout_is_idle_after_any_time_at_all() {
    let state = ActivityState::new(7);
    assert!(!state.is_idle(7, 0));
    assert!(state.is_idle(8, 0));
}

#[test]
fn idle_duration_grows_until_activity_is_recorded() {
    let mut state = ActivityState::new(0);
    let mut last = 0;
    for tick in 0..10u128 {
        let idle = state.idle_duration(tick * SEC);
        assert!(idle >= last);
        last = idle;
    }
    assert_eq!(last, 9 * SEC);
    state.record_activity(10 * SEC);
    assert_eq!(state.idle_duration(10 * SEC), 0);
}

#[test]
fn tracker_is_a_plain_copyable_value() {
    let state = ActivityState::new(5);
    let copy = state;
    assert_eq!(state, copy);
    assert_ne!(state, ActivityState::new(6));
}
