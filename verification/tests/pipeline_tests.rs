use http::{HeaderMap, HeaderValue};

use api_keys::errors::{ApiKeyLimiterError, ApiKeyManagerError, ApiKeyStorageError};
use api_keys::layer::{authorize_request, ApiKeyErrorResponse, ApiKeyLayerError};
use api_keys::limiters::FixedWindowLimiter;
use api_keys::manager::KeyManager;
use api_keys::mock::get_mock_api_key;
use api_keys::storage::HashMapStorage;
use api_keys::traits::{ApiKeyManager, ApiKeyStorage};
use api_keys::types::{ApiKeyLimit, ApiKeyLimits};

fn manager_with(
    identifier: &str,
    read_quota: ApiKeyLimit,
) -> KeyManager<HashMapStorage, FixedWindowLimiter> {
    let mut storage = HashMapStorage::new();
    let mut record = get_mock_api_key(Some(identifier.to_string()));
    record.limits = ApiKeyLimits {
        max_reads_per_minute: read_quota,
        max_writes_per_minute: ApiKeyLimit::Limited(100),
    };
    storage.store_api_key(identifier, &record).unwrap();
    KeyManager::new(storage, FixedWindowLimiter::new())
}

#[test]
fn an_unknown_identifier_yields_key_not_found() {
    let manager = manager_with("known", ApiKeyLimit::Limited(5));
    match manager.get_key("unknown_key") {
        Err(ApiKeyManagerError::StorageError(ApiKeyStorageError::KeyNotFound)) => {}
        _ => panic!("an unknown identifier must resolve to a storage-kind KeyNotFound"),
    }
}

#[test]
fn a_storage_miss_never_consumes_quota() {
    let mut manager = manager_with("gated", ApiKeyLimit::Limited(1));

    // authorizing an absent identifier fails at storage and
    // short-circuits before the limiter
    match manager.use_key("absent", 100) {
        Err(ApiKeyManagerError::StorageError(ApiKeyStorageError::KeyNotFound)) => {}
        _ => panic!("the storage miss must short-circuit"),
    }

    // the single-use quota is untouched: the first authorized use succeeds
    assert!(manager.use_key("gated", 100).is_ok());
    match manager.use_key("gated", 100) {
        Err(ApiKeyManagerError::LimiterError(ApiKeyLimiterError::RateLimitExceeded)) => {}
        _ => panic!("the second use of a single-use quota must be rejected"),
    }
}

#[test]
fn a_missing_header_is_rejected_before_anything_runs() {
    let mut manager = manager_with("valid_key", ApiKeyLimit::Limited(5));
    let headers = HeaderMap::new();

    match authorize_request(&headers, &mut manager, 100) {
        Err(e) => {
            assert_eq!(e.to_message_type(), "MissingApiKey");
            assert_eq!(e.status_code(), 401);
        }
        Ok(()) => panic!("a request without the header must be rejected"),
    }
}

#[test]
fn an_unknown_key_is_collapsed_to_invalid_api_key() {
    let mut manager = manager_with("valid_key", ApiKeyLimit::Limited(5));
    let mut headers = HeaderMap::new();
    headers.insert("x-api-key", HeaderValue::from_static("unknown_key"));

    match authorize_request(&headers, &mut manager, 100) {
        Err(e) => {
            assert_eq!(e.to_message_type(), "InvalidApiKey");
            assert_eq!(e.status_code(), 401);
        }
        Ok(()) => panic!("an unknown key must be rejected"),
    }
}

#[test]
fn a_valid_under_quota_key_is_forwarded() {
    let mut manager = manager_with("valid_key", ApiKeyLimit::Limited(5));
    let mut headers = HeaderMap::new();
    headers.insert("x-api-key", HeaderValue::from_static("valid_key"));

    assert!(authorize_request(&headers, &mut manager, 100).is_ok());
}

#[test]
fn an_exhausted_key_is_rejected_as_rate_limited() {
    let mut manager = manager_with("valid_key", ApiKeyLimit::Limited(2));
    let mut headers = HeaderMap::new();
    headers.insert("x-api-key", HeaderValue::from_static("valid_key"));

    assert!(authorize_request(&headers, &mut manager, 100).is_ok());
    assert!(authorize_request(&headers, &mut manager, 100).is_ok());
    match authorize_request(&headers, &mut manager, 100) {
        Err(e) => {
            assert_eq!(e.to_message_type(), "RateLimitExceeded");
            assert_eq!(e.status_code(), 401);
        }
        Ok(()) => panic!("the exhausted key must be rejected"),
    }
}

#[test]
fn an_unrenderable_header_value_counts_as_missing() {
    let mut manager = manager_with("valid_key", ApiKeyLimit::Limited(5));
    let mut headers = HeaderMap::new();
    headers.insert("x-api-key", HeaderValue::from_bytes(&[0xffu8]).unwrap());

    match authorize_request(&headers, &mut manager, 100) {
        Err(e) => assert_eq!(e.to_message_type(), "MissingApiKey"),
        Ok(()) => panic!("a value that does not render must be rejected"),
    }
}

#[test]
fn extract_header_hands_the_value_through() {
    let mut headers = HeaderMap::new();
    headers.insert("x-api-key", HeaderValue::from_static("abc123"));

    assert_eq!(
        api_keys::headers::extract_header("x-api-key", &headers),
        Some("abc123".to_string())
    );
    assert_eq!(api_keys::headers::extract_header("x-other", &headers), None);
}

#[test]
fn rejection_payloads_carry_message_and_kind() {
    let missing = ApiKeyLayerError::MissingApiKey;
    let payload = ApiKeyErrorResponse::from_error(&missing);
    assert_eq!(payload.message, "x-api-key header is not set");
    assert_eq!(payload.message_type, "MissingApiKey");

    let limited =
        ApiKeyLayerError::LimiterError(ApiKeyLimiterError::RateLimitExceeded);
    let payload = ApiKeyErrorResponse::from_error(&limited);
    assert_eq!(payload.message, "Rate limit exceeded");
    assert_eq!(payload.message_type, "RateLimitExceeded");

    let faulted = ApiKeyLayerError::LimiterError(ApiKeyLimiterError::Other(
        "backend unreachable".to_string(),
    ));
    let payload = ApiKeyErrorResponse::from_error(&faulted);
    assert_eq!(payload.message, "Other error: backend unreachable");
    assert_eq!(payload.message_type, "ApiLimiter::Other");

    let storage = ApiKeyLayerError::StorageError(ApiKeyStorageError::StorageError(
        "disk gone".to_string(),
    ));
    let payload = ApiKeyErrorResponse::from_error(&storage);
    assert_eq!(payload.message, "Storage error: disk gone");
    assert_eq!(payload.message_type, "StorageError");
    assert_eq!(storage.status_code(), 500);
    assert_eq!(ApiKeyLayerError::UnexpectedError.status_code(), 500);
    assert_eq!(ApiKeyLayerError::ApiKeyNotFound.status_code(), 401);
    assert_eq!(ApiKeyLayerError::DomainNotAllowed.status_code(), 401);
}

#[test]
fn manager_failures_map_to_their_boundary_form() {
    let collapsed = ApiKeyLayerError::from_manager_error(ApiKeyManagerError::StorageError(
        ApiKeyStorageError::KeyNotFound,
    ));
    assert_eq!(collapsed.to_message_type(), "InvalidApiKey");
    assert_eq!(collapsed.status_code(), 401);

    let passed = ApiKeyLayerError::from_manager_error(ApiKeyManagerError::LimiterError(
        ApiKeyLimiterError::RateLimitExceeded,
    ));
    assert_eq!(passed.to_message_type(), "RateLimitExceeded");
    assert_eq!(passed.status_code(), 401);

    let unexpected =
        ApiKeyLayerError::from_manager_error(ApiKeyManagerError::Other("lost".to_string()));
    assert_eq!(unexpected.to_message_type(), "UnexpectedError");
    assert_eq!(unexpected.status_code(), 500);
}

#[test]
fn every_error_kind_has_its_stable_string() {
    assert_eq!(ApiKeyStorageError::KeyNotFound.to_message_type(), "KeyNotFound");
    assert_eq!(
        ApiKeyStorageError::KeyAlreadyExists.to_message_type(),
        "KeyAlreadyExists"
    );
    assert_eq!(
        ApiKeyStorageError::SerializationError("x".to_string()).to_message_type(),
        "SerializationError"
    );
    assert_eq!(
        ApiKeyStorageError::StorageError("x".to_string()).to_message_type(),
        "StorageError"
    );
    assert_eq!(
        ApiKeyLimiterError::RateLimitExceeded.to_message_type(),
        "RateLimitExceeded"
    );
    assert_eq!(
        ApiKeyLimiterError::Other("x".to_string()).to_message_type(),
        "ApiLimiter::Other"
    );
    assert_eq!(ApiKeyLayerError::MissingApiKey.to_message_type(), "MissingApiKey");
    assert_eq!(ApiKeyLayerError::InvalidApiKey.to_message_type(), "InvalidApiKey");
    assert_eq!(ApiKeyLayerError::ApiKeyNotFound.to_message_type(), "ApiKeyNotFound");
    assert_eq!(
        ApiKeyLayerError::DomainNotAllowed.to_message_type(),
        "DomainNotAllowed"
    );
    assert_eq!(ApiKeyLayerError::UnexpectedError.to_message_type(), "UnexpectedError");
    assert_eq!(
        ApiKeyLayerError::to_message(&ApiKeyLayerError::LimiterError(
            ApiKeyLimiterError::RateLimitExceeded
        )),
        "Limiter error: Rate limit exceeded"
    );
}
