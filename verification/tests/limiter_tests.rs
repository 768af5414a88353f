use api_keys::errors::ApiKeyLimiterError;
use api_keys::limiters::FixedWindowLimiter;
use api_keys::mock::get_mock_api_key;
use api_keys::traits::ApiKeyLimiter;
use api_keys::types::{ApiKeyLimit, ApiKeyLimits};

fn key_with_read_quota(limit: ApiKeyLimit) -> api_keys::types::ApiKey {
    let mut record = get_mock_api_key(Some("test_key".to_string()));
    record.limits = ApiKeyLimits {
        max_reads_per_minute: limit,
        max_writes_per_minute: ApiKeyLimit::Limited(100),
    };
    record
}

#[test]
fn unlimited_quota_always_admits() {
    let mut limiter = FixedWindowLimiter::new();
    let record = key_with_read_quota(ApiKeyLimit::Unlimited);

    for _ in 0..1000 {
        assert!(limiter.use_key(&record, 500).is_ok());
    }
    // no counter is ever touched for an unlimited key
    assert!(limiter.counter_of(&record.key).is_none());
}

#[test]
fn limited_quota_admits_n_then_rejects() {
    let mut limiter = FixedWindowLimiter::new();
    let record = key_with_read_quota(ApiKeyLimit::Limited(3));

    for _ in 0..3 {
        assert!(limiter.use_key(&record, 1000).is_ok());
    }
    match limiter.use_key(&record, 1000) {
        Err(ApiKeyLimiterError::RateLimitExceeded) => {}
        _ => panic!("the call beyond the ceiling must be rejected"),
    }
}

#[test]
fn window_expiry_restarts_the_count_at_one() {
    let mut limiter = FixedWindowLimiter::new();
    let record = key_with_read_quota(ApiKeyLimit::Limited(2));

    assert!(limiter.use_key(&record, 1000).is_ok());
    assert!(limiter.use_key(&record, 1000).is_ok());
    assert!(limiter.use_key(&record, 1001).is_err());

    // the window set at 1000 ends at 1060
    assert!(limiter.use_key(&record, 1060).is_ok());
    let counter = limiter.counter_of(&record.key).unwrap();
    assert_eq!(counter.count, 1);
    assert_eq!(counter.expires_at, 1120);
}

#[test]
fn every_use_is_counted_even_when_rejected() {
    let mut limiter = FixedWindowLimiter::new();
    let record = key_with_read_quota(ApiKeyLimit::Limited(4));

    let mut admitted = 0;
    let mut rejected = 0;
    for _ in 0..10 {
        match limiter.use_key(&record, 2000) {
            Ok(()) => admitted += 1,
            Err(_) => rejected += 1,
        }
    }
    assert_eq!(admitted, 4);
    assert_eq!(rejected, 6);
    // no increment is lost: the counter carries every one of the ten uses
    assert_eq!(limiter.counter_of(&record.key).unwrap().count, 10);
}

#[test]
fn a_zero_ceiling_rejects_the_first_use() {
    let mut limiter = FixedWindowLimiter::new();
    let record = key_with_read_quota(ApiKeyLimit::Limited(0));

    match limiter.use_key(&record, 0) {
        Err(ApiKeyLimiterError::RateLimitExceeded) => {}
        _ => panic!("a zero ceiling admits nothing"),
    }
}

#[test]
fn limit_messages_render_the_ceiling() {
    assert_eq!(ApiKeyLimit::Limited(100).to_message(), "100");
    assert_eq!(ApiKeyLimit::Limited(0).to_message(), "0");
    assert_eq!(ApiKeyLimit::Limited(4294967295).to_message(), "4294967295");
    assert_eq!(ApiKeyLimit::Unlimited.to_message(), "unlimited");
}
