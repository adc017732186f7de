use pacer::adjust::throttler::{StatusCode, Throttle, ThrottleOptions, Throttler};

#[test]
fn adjust_throttler_trait_live_gate() {
    let options = ThrottleOptions {
        max_num_calls: 1,
        period_seconds: 3600,
    };
    let mut throttler = Throttler::new(&options);

    assert_eq!(throttler.throttle(), StatusCode::Accepted);
    assert_eq!(throttler.throttle(), StatusCode::Rejected);
}
