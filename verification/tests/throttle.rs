use community_hub::clock::Timestamp;
use community_hub::rate_limiter::{RateLimiter, RateLimiterTrait};
use community_hub::responders::ApiResponse;
use community_hub::responses::{TemplateView, ToastTypes};

fn at(seconds: i64, nanos: u32) -> Timestamp {
    Timestamp::from_unix(seconds, nanos).unwrap()
}

fn toast_of(resp: &ApiResponse) -> (u16, String) {
    match resp {
        ApiResponse::Render { status, template: Some(TemplateView::Toast { name, toast }), headers: None } => {
            assert_eq!(*name, "partials/toast");
            assert_eq!(toast.toast_type, Some(ToastTypes::Error));
            (*status, toast.message.clone())
        }
        other => panic!("unexpected response {:?}", other),
    }
}

#[test]
fn below_capacity_passes_unchanged() {
    let mut limiter = RateLimiter::new(5, at(0, 0));
    limiter.requests = 4;
    let before = limiter;
    assert!(limiter.add_to_limit_at(at(10, 0), at(10, 0)).is_ok());
    assert_eq!(limiter, before);
}

#[test]
fn at_capacity_starts_cooldown_and_rejects() {
    let mut limiter = RateLimiter::new(3, at(0, 0));
    limiter.requests = 3;
    let r = limiter.add_to_limit_at(at(100, 0), at(100, 0));
    let (status, message) = toast_of(&r.unwrap_err());
    assert_eq!(status, 429);
    assert_eq!(
        message,
        "The server is experiencing high loads of requests. Please try again in 30s."
    );
    assert!(limiter.did_time_accumulator_start);
    assert_eq!(limiter.time_accumulator_started, at(100, 0));
    assert_eq!(limiter.requests, 3);
}

#[test]
fn running_cooldown_counts_down_and_keeps_its_start() {
    let mut limiter = RateLimiter::new(1, at(100, 0));
    limiter.requests = 1;
    limiter.did_time_accumulator_start = true;
    let r = limiter.add_to_limit_at(at(999, 0), at(112, 0));
    let (_, message) = toast_of(&r.unwrap_err());
    assert!(message.ends_with("Please try again in 18s."));
    assert_eq!(limiter.time_accumulator_started, at(100, 0));
}

#[test]
fn cooldown_over_resets_the_count() {
    let mut limiter = RateLimiter::new(2, at(100, 0));
    limiter.requests = 7;
    limiter.did_time_accumulator_start = true;
    assert!(limiter.add_to_limit_at(at(0, 0), at(130, 0)).is_ok());
    assert_eq!(limiter.requests, 0);
    assert!(!limiter.did_time_accumulator_start);
}

#[test]
fn less_than_a_second_left_counts_as_over() {
    let mut limiter = RateLimiter::new(1, at(100, 0));
    limiter.requests = 1;
    limiter.did_time_accumulator_start = true;
    assert!(limiter.add_to_limit_at(at(0, 0), at(129, 500_000_000)).is_ok());
    assert_eq!(limiter.requests, 0);
}

#[test]
fn zero_capacity_always_checks_the_cooldown() {
    let mut limiter = RateLimiter::new(0, at(0, 0));
    let r = limiter.add_to_limit_at(at(50, 0), at(50, 0));
    assert!(r.is_err());
}

#[test]
fn clock_driven_throttle_behaves_like_the_timed_one() {
    let mut limiter = RateLimiter::new(10, at(0, 0));
    assert!(limiter.start_time_accumulator().is_ok());
    assert!(limiter.did_time_accumulator_start);
    limiter.did_time_accumulator_start = false;
    assert!(limiter.add_to_limit_or_return().is_ok());
    assert_eq!(limiter.requests, 0);
    let mut full = RateLimiter::new(1, at(0, 0));
    full.requests = 1;
    assert!(full.add_to_limit_or_return().is_err());
    assert!(full.did_time_accumulator_start);
}
