use pacer::adjust;
use pacer::clock::elapsed_since;
use pacer::debouncer::{DebounceOptions, Debouncer};
use pacer::throttler::{StatusCode, ThrottleOptions, Throttler};

#[test]
fn check_throttle_options_creation() {
    //! create Throttle which allows 1 request within 5 seconds
    let options = ThrottleOptions {
        max_call_count: 1,
        period_seconds: 5,
    };
    assert_eq!(options.max_call_count, 1);
    assert_eq!(options.period_seconds, 5);
}

#[test]
fn check_debounce_options_creation() {
    //! create Debounce which refuses all requests within 5 seconds
    let options = DebounceOptions { period_seconds: 5 };
    assert_eq!(options.period_seconds, 5);
}

#[test]
fn elapsed_saturates_at_zero() {
    assert_eq!(elapsed_since(100, 107), 7);
    assert_eq!(elapsed_since(100, 100), 0);
    assert_eq!(elapsed_since(107, 100), 0);
}

#[test]
fn throttle_accepts_up_to_max_then_rejects() {
    let options = ThrottleOptions {
        max_call_count: 2,
        period_seconds: 5,
    };
    let mut throttler = Throttler::new_at(&options, 100);

    assert_eq!(throttler.throttle_at(100), StatusCode::Accepted);
    assert_eq!(throttler.call_count, 1);
    assert_eq!(throttler.throttle_at(101), StatusCode::Accepted);
    assert_eq!(throttler.call_count, 2);
    assert_eq!(throttler.throttle_at(102), StatusCode::Rejected);
    assert_eq!(throttler.throttle_at(103), StatusCode::Rejected);
    assert_eq!(throttler.call_count, 2);
}

#[test]
fn throttle_window_reset_after_period() {
    let options = ThrottleOptions {
        max_call_count: 2,
        period_seconds: 5,
    };
    let mut throttler = Throttler::new_at(&options, 100);

    assert_eq!(throttler.throttle_at(100), StatusCode::Accepted);
    assert_eq!(throttler.throttle_at(101), StatusCode::Accepted);
    assert_eq!(throttler.throttle_at(102), StatusCode::Rejected);

    // the window opened at 100 expires at 105; the reopening call is
    // accepted and not charged against the fresh counter
    assert_eq!(throttler.throttle_at(105), StatusCode::Accepted);
    assert_eq!(throttler.call_count, 0);
    assert_eq!(throttler.window_start, 105);

    assert_eq!(throttler.throttle_at(106), StatusCode::Accepted);
    assert_eq!(throttler.call_count, 1);
}

#[test]
fn throttle_boundary_elapsed_equals_period() {
    let options = ThrottleOptions {
        max_call_count: 1,
        period_seconds: 5,
    };
    let mut throttler = Throttler::new_at(&options, 100);

    assert_eq!(throttler.throttle_at(100), StatusCode::Accepted);
    assert_eq!(throttler.throttle_at(104), StatusCode::Rejected);
    // elapsed == period counts as expired
    assert_eq!(throttler.throttle_at(105), StatusCode::Accepted);
    assert_eq!(throttler.call_count, 0);
}

#[test]
fn throttle_zero_max_calls_rejects_within_window() {
    let options = ThrottleOptions {
        max_call_count: 0,
        period_seconds: 5,
    };
    let mut throttler = Throttler::new_at(&options, 100);

    assert_eq!(throttler.throttle_at(100), StatusCode::Rejected);
    assert_eq!(throttler.throttle_at(104), StatusCode::Rejected);
    assert_eq!(throttler.call_count, 0);
    assert_eq!(throttler.window_start, 100);
    // only window expiry lets a call through
    assert_eq!(throttler.throttle_at(105), StatusCode::Accepted);
}

#[test]
fn throttle_zero_period_accepts_everything() {
    let options = ThrottleOptions {
        max_call_count: 3,
        period_seconds: 0,
    };
    let mut throttler = Throttler::new_at(&options, 100);

    assert_eq!(throttler.throttle_at(100), StatusCode::Accepted);
    assert_eq!(throttler.throttle_at(100), StatusCode::Accepted);
    assert_eq!(throttler.throttle_at(101), StatusCode::Accepted);
    assert_eq!(throttler.call_count, 0);
}

#[test]
fn throttle_rejected_call_leaves_state_untouched() {
    let options = ThrottleOptions {
        max_call_count: 1,
        period_seconds: 5,
    };
    let mut throttler = Throttler::new_at(&options, 100);

    assert_eq!(throttler.throttle_at(100), StatusCode::Accepted);
    assert_eq!(throttler.call_count, 1);
    assert_eq!(throttler.window_start, 100);

    assert_eq!(throttler.throttle_at(102), StatusCode::Rejected);
    assert_eq!(throttler.call_count, 1);
    assert_eq!(throttler.window_start, 100);
}

#[test]
fn throttle_clock_step_backwards_reads_as_zero_elapsed() {
    let options = ThrottleOptions {
        max_call_count: 1,
        period_seconds: 5,
    };
    let mut throttler = Throttler::new_at(&options, 100);

    // a reading before the window start counts as zero elapsed: in-window
    assert_eq!(throttler.throttle_at(50), StatusCode::Accepted);
    assert_eq!(throttler.call_count, 1);
    assert_eq!(throttler.throttle_at(50), StatusCode::Rejected);
}

#[test]
fn throttle_live_clock_gate() {
    let options = ThrottleOptions {
        max_call_count: 2,
        period_seconds: 3600,
    };
    let mut throttler = Throttler::new(&options);

    assert_eq!(throttler.throttle(), StatusCode::Accepted);
    assert_eq!(throttler.throttle(), StatusCode::Accepted);
    assert_eq!(throttler.throttle(), StatusCode::Rejected);
}

#[test]
fn debounce_rejects_rapid_calls() {
    let options = DebounceOptions { period_seconds: 5 };
    let mut debouncer = Debouncer::new_at(&options, 100);

    // the first call is measured against the construction timestamp
    assert_eq!(
        debouncer.debounce_at(100),
        pacer::debouncer::StatusCode::Rejected
    );
    // every attempt restarts the quiet period, so a burst stays rejected
    assert_eq!(
        debouncer.debounce_at(102),
        pacer::debouncer::StatusCode::Rejected
    );
    assert_eq!(
        debouncer.debounce_at(104),
        pacer::debouncer::StatusCode::Rejected
    );
    // 109 is 5 seconds after the last attempt at 104
    assert_eq!(
        debouncer.debounce_at(109),
        pacer::debouncer::StatusCode::Accepted
    );
}

#[test]
fn debounce_updates_last_attempt_even_on_reject() {
    let options = DebounceOptions { period_seconds: 5 };
    let mut debouncer = Debouncer::new_at(&options, 100);

    assert_eq!(
        debouncer.debounce_at(102),
        pacer::debouncer::StatusCode::Rejected
    );
    assert_eq!(debouncer.last_attempt, 102);

    assert_eq!(
        debouncer.debounce_at(107),
        pacer::debouncer::StatusCode::Accepted
    );
    assert_eq!(debouncer.last_attempt, 107);
}

#[test]
fn debounce_boundary_elapsed_equals_period() {
    let options = DebounceOptions { period_seconds: 5 };
    let mut debouncer = Debouncer::new_at(&options, 100);

    // elapsed == period counts as enough quiet time
    assert_eq!(
        debouncer.debounce_at(105),
        pacer::debouncer::StatusCode::Accepted
    );
}

#[test]
fn debounce_zero_period_accepts_everything() {
    let options = DebounceOptions { period_seconds: 0 };
    let mut debouncer = Debouncer::new_at(&options, 100);

    assert_eq!(
        debouncer.debounce_at(100),
        pacer::debouncer::StatusCode::Accepted
    );
    assert_eq!(
        debouncer.debounce_at(100),
        pacer::debouncer::StatusCode::Accepted
    );
}

#[test]
fn debounce_clock_step_backwards_reads_as_zero_elapsed() {
    let options = DebounceOptions { period_seconds: 5 };
    let mut debouncer = Debouncer::new_at(&options, 100);

    assert_eq!(
        debouncer.debounce_at(90),
        pacer::debouncer::StatusCode::Rejected
    );
    assert_eq!(debouncer.last_attempt, 90);
}

#[test]
fn debounce_live_clock_gate() {
    let options = DebounceOptions {
        period_seconds: 3600,
    };
    let mut debouncer = Debouncer::new(&options);

    assert_eq!(
        debouncer.debounce(),
        pacer::debouncer::StatusCode::Rejected
    );
}

#[test]
fn adjust_throttler_gate() {
    let options = adjust::throttler::ThrottleOptions {
        max_num_calls: 1,
        period_seconds: 5,
    };
    let mut throttler = adjust::throttler::Throttler::new_at(&options, 100);

    assert_eq!(
        throttler.throttle_at(100),
        adjust::throttler::StatusCode::Accepted
    );
    assert_eq!(throttler.call_times, 1);
    assert_eq!(
        throttler.throttle_at(101),
        adjust::throttler::StatusCode::Rejected
    );
    assert_eq!(throttler.call_times, 1);
    assert_eq!(
        throttler.throttle_at(105),
        adjust::throttler::StatusCode::Accepted
    );
    assert_eq!(throttler.call_times, 0);
    assert_eq!(throttler.since_time, 105);
}

#[test]
fn adjust_state_only_gate() {
    let options = adjust::adjust::ThrottleEnforce {
        max_num_calls: 1,
        period_seconds: 5,
    };
    let mut throttler = adjust::adjust::Throttler::new_at(&options, 100);

    throttler.throttle_at(100);
    assert_eq!(throttler.called_count, 1);
    // the window is full: a further in-window call leaves the state as it is
    throttler.throttle_at(101);
    assert_eq!(throttler.called_count, 1);
    assert_eq!(throttler.pinned_time, 100);
    // window expiry clears the counter and repins the window
    throttler.throttle_at(105);
    assert_eq!(throttler.called_count, 0);
    assert_eq!(throttler.pinned_time, 105);
}
