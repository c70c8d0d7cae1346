use reddit_fetch::rate_limit::{RateLimiter, MIN_INTERVAL_MS};

#[test]
fn first_request_goes_at_once() {
    let mut limiter = RateLimiter::new(MIN_INTERVAL_MS);
    assert_eq!(limiter.acquire(5), 5);
}

#[test]
fn requests_are_spaced_by_the_interval() {
    let mut limiter = RateLimiter::new(1000);
    assert_eq!(limiter.acquire(0), 0);
    assert_eq!(limiter.acquire(10), 1000);
    assert_eq!(limiter.acquire(1500), 2000);
    assert_eq!(limiter.acquire(5000), 5000);
    assert_eq!(limiter.acquire(5000), 6000);
}

#[test]
fn n_requests_span_n_minus_one_intervals() {
    let mut limiter = RateLimiter::new(MIN_INTERVAL_MS);
    let starts: Vec<u64> = (0..6).map(|_| limiter.acquire(100)).collect();
    assert_eq!(starts[0], 100);
    assert!(starts[5] - starts[0] >= 5 * MIN_INTERVAL_MS);
    assert!(starts.windows(2).all(|w| w[1] - w[0] >= MIN_INTERVAL_MS));
}

#[test]
fn clock_end_saturates() {
    let mut limiter = RateLimiter::new(1000);
    assert_eq!(limiter.acquire(u64::MAX - 10), u64::MAX - 10);
    assert_eq!(limiter.acquire(u64::MAX - 5), u64::MAX);
}

#[test]
fn wait_until_start() {
    assert_eq!(RateLimiter::wait_ms(100, 1000), 900);
    assert_eq!(RateLimiter::wait_ms(1000, 1000), 0);
    assert_eq!(RateLimiter::wait_ms(2000, 1000), 0);
}
