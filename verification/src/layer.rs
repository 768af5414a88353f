//! The request boundary: credential extraction, authorization, and the
//! mapping of every outcome to a response.

use vstd::prelude::*;
use vstd::string::StringExecFns;

use http::HeaderMap;

use crate::errors::{
    limiter_message, limiter_message_type, storage_message, storage_message_type,
    ApiKeyLimiterError, ApiKeyManagerError, ApiKeyStorageError,
};
use crate::headers::{extract_header, header_str};
use crate::limiters::{admit_allowed, counters_after_admit, CounterState, WINDOW_SECS};
use crate::traits::ApiKeyManager;
use crate::types::ApiKeyModel;

verus! {

/// Everything the boundary can answer instead of forwarding a request.
#[derive(Debug)]
pub enum ApiKeyLayerError {
    MissingApiKey,
    InvalidApiKey,
    ApiKeyNotFound,
    DomainNotAllowed,
    LimiterError(ApiKeyLimiterError),
    StorageError(ApiKeyStorageError),
    UnexpectedError,
}

/// The status-code equivalent of an unauthorized rejection.
pub const STATUS_UNAUTHORIZED: u16 = 401;

/// The status-code equivalent of an internal failure.
pub const STATUS_INTERNAL_ERROR: u16 = 500;

/// The machine-readable kind of a boundary error; wrapped tiers keep
/// their own kind.
pub open spec fn layer_message_type(e: ApiKeyLayerError) -> Seq<char> {
    match e {
        ApiKeyLayerError::MissingApiKey => "MissingApiKey"@,
        ApiKeyLayerError::InvalidApiKey => "InvalidApiKey"@,
        ApiKeyLayerError::ApiKeyNotFound => "ApiKeyNotFound"@,
        ApiKeyLayerError::DomainNotAllowed => "DomainNotAllowed"@,
        ApiKeyLayerError::LimiterError(le) => limiter_message_type(le),
        ApiKeyLayerError::StorageError(se) => storage_message_type(se),
        ApiKeyLayerError::UnexpectedError => "UnexpectedError"@,
    }
}

/// The human-readable message of a boundary error.
pub open spec fn layer_message(e: ApiKeyLayerError) -> Seq<char> {
    match e {
        ApiKeyLayerError::MissingApiKey => "x-api-key header is not set"@,
        ApiKeyLayerError::InvalidApiKey => "The provided API key is not valid"@,
        ApiKeyLayerError::ApiKeyNotFound => "The provided API key was not found"@,
        ApiKeyLayerError::DomainNotAllowed => "The provided API key is not allowed for this domain"@,
        ApiKeyLayerError::LimiterError(le) => "Limiter error: "@ + limiter_message(le),
        ApiKeyLayerError::StorageError(se) => "Storage error: "@ + storage_message(se),
        ApiKeyLayerError::UnexpectedError => "Unexpected error"@,
    }
}

/// The message the rejection payload carries: a wrapped tier speaks with
/// its own message, the boundary's own kinds with theirs.
pub open spec fn response_message(e: ApiKeyLayerError) -> Seq<char> {
    match e {
        ApiKeyLayerError::LimiterError(le) => limiter_message(le),
        ApiKeyLayerError::StorageError(se) => storage_message(se),
        _ => layer_message(e),
    }
}

/// The status of a rejection: authentication-kind failures are
/// unauthorized; unexpected and storage-kind failures are internal.
pub open spec fn layer_status(e: ApiKeyLayerError) -> u16 {
    match e {
        ApiKeyLayerError::UnexpectedError => STATUS_INTERNAL_ERROR,
        ApiKeyLayerError::StorageError(_) => STATUS_INTERNAL_ERROR,
        _ => STATUS_UNAUTHORIZED,
    }
}

/// The boundary translation of a manager failure: limiter failures pass
/// through with their kind; storage-kind failures are collapsed to
/// `InvalidApiKey`, so a caller cannot tell a missing key from a backend
/// fault; anything uncategorized surfaces as `UnexpectedError`.
pub open spec fn layer_error_of_manager(e: ApiKeyManagerError) -> ApiKeyLayerError {
    match e {
        ApiKeyManagerError::LimiterError(le) => ApiKeyLayerError::LimiterError(le),
        ApiKeyManagerError::StorageError(_) => ApiKeyLayerError::InvalidApiKey,
        ApiKeyManagerError::Other(_) => ApiKeyLayerError::UnexpectedError,
    }
}

impl ApiKeyLayerError {
    /// The stable kind string, as it appears in the rejection payload.
    pub fn to_message_type(&self) -> (r: String)
        ensures
            r@ == layer_message_type(*self),
    {
        match self {
            ApiKeyLayerError::MissingApiKey => String::from_str("MissingApiKey"),
            ApiKeyLayerError::InvalidApiKey => String::from_str("InvalidApiKey"),
            ApiKeyLayerError::ApiKeyNotFound => String::from_str("ApiKeyNotFound"),
            ApiKeyLayerError::DomainNotAllowed => String::from_str("DomainNotAllowed"),
            ApiKeyLayerError::LimiterError(le) => le.to_message_type(),
            ApiKeyLayerError::StorageError(se) => se.to_message_type(),
            ApiKeyLayerError::UnexpectedError => String::from_str("UnexpectedError"),
        }
    }

    /// The human-readable message.
    pub fn to_message(&self) -> (r: String)
        ensures
            r@ == layer_message(*self),
    {
        match self {
            ApiKeyLayerError::MissingApiKey => String::from_str("x-api-key header is not set"),
            ApiKeyLayerError::InvalidApiKey => String::from_str(
                "The provided API key is not valid",
            ),
            ApiKeyLayerError::ApiKeyNotFound => String::from_str(
                "The provided API key was not found",
            ),
            ApiKeyLayerError::DomainNotAllowed => String::from_str(
                "The provided API key is not allowed for this domain",
            ),
            ApiKeyLayerError::LimiterError(le) => String::from_str("Limiter error: ").concat(
                le.to_message().as_str(),
            ),
            ApiKeyLayerError::StorageError(se) => String::from_str("Storage error: ").concat(
                se.to_message().as_str(),
            ),
            ApiKeyLayerError::UnexpectedError => String::from_str("Unexpected error"),
        }
    }

    /// The status code of the rejection.
    pub fn status_code(&self) -> (r: u16)
        ensures
            r == layer_status(*self),
    {
        match self {
            ApiKeyLayerError::UnexpectedError => STATUS_INTERNAL_ERROR,
            ApiKeyLayerError::StorageError(_) => STATUS_INTERNAL_ERROR,
            _ => STATUS_UNAUTHORIZED,
        }
    }

    /// Translates a manager failure to its boundary form.
    pub fn from_manager_error(e: ApiKeyManagerError) -> (r: Self)
        ensures
            r == layer_error_of_manager(e),
    {
        match e {
            ApiKeyManagerError::LimiterError(le) => ApiKeyLayerError::LimiterError(le),
            ApiKeyManagerError::StorageError(_) => ApiKeyLayerError::InvalidApiKey,
            ApiKeyManagerError::Other(_) => ApiKeyLayerError::UnexpectedError,
        }
    }
}

/// The rejection payload: a human-readable message and a stable
/// machine-readable kind.
pub struct ApiKeyErrorResponse {
    pub message: String,
    pub message_type: String,
}

impl ApiKeyErrorResponse {
    /// The payload a rejection answers with.
    pub fn from_error(e: &ApiKeyLayerError) -> (r: Self)
        ensures
            r.message@ == response_message(*e),
            r.message_type@ == layer_message_type(*e),
    {
        match e {
            ApiKeyLayerError::LimiterError(le) => ApiKeyErrorResponse {
                message: le.to_message(),
                message_type: le.to_message_type(),
            },
            ApiKeyLayerError::StorageError(se) => ApiKeyErrorResponse {
                message: se.to_message(),
                message_type: se.to_message_type(),
            },
            _ => ApiKeyErrorResponse { message: e.to_message(), message_type: e.to_message_type() },
        }
    }
}

/// One authorized use: the identifier resolves to a record, the use is
/// within quota, and the counters carry the one increment.
pub open spec fn authorized_use(
    keys: Map<Seq<char>, ApiKeyModel>,
    pre: Map<Seq<char>, CounterState>,
    post: Map<Seq<char>, CounterState>,
    key: Seq<char>,
    now: u64,
) -> bool {
    &&& keys.dom().contains(key)
    &&& admit_allowed(keys[key].limits.max_reads_per_minute, pre, keys[key].key, now)
    &&& post == counters_after_admit(keys[key].limits.max_reads_per_minute, pre, keys[key].key, now)
}

/// One rejected use: the identifier resolves to a record whose quota the
/// use exceeds; the counters still carry the increment.
pub open spec fn rate_limited_use(
    keys: Map<Seq<char>, ApiKeyModel>,
    pre: Map<Seq<char>, CounterState>,
    post: Map<Seq<char>, CounterState>,
    key: Seq<char>,
    now: u64,
) -> bool {
    &&& keys.dom().contains(key)
    &&& !admit_allowed(keys[key].limits.max_reads_per_minute, pre, keys[key].key, now)
    &&& post == counters_after_admit(keys[key].limits.max_reads_per_minute, pre, keys[key].key, now)
}

/// Authorizes one use of the key named by `key`, translating every manager
/// failure to its boundary form. `true` means the request may be forwarded.
pub fn verify_api_key<M: ApiKeyManager>(manager: &mut M, key: &str, now: u64) -> (r: Result<
    bool,
    ApiKeyLayerError,
>)
    requires
        now + WINDOW_SECS <= u64::MAX,
    ensures
        final(manager).keys() == old(manager).keys(),
        match r {
            Ok(forwarded) => forwarded && authorized_use(
                old(manager).keys(),
                old(manager).counters(),
                final(manager).counters(),
                key@,
                now,
            ),
            Err(e) => match e {
                ApiKeyLayerError::LimiterError(ApiKeyLimiterError::RateLimitExceeded) => (
                rate_limited_use(
                    old(manager).keys(),
                    old(manager).counters(),
                    final(manager).counters(),
                    key@,
                    now,
                )),
                ApiKeyLayerError::LimiterError(ApiKeyLimiterError::Other(_)) => (
                M::limiter_may_fault()),
                ApiKeyLayerError::InvalidApiKey => (!old(manager).keys().dom().contains(key@)
                    || M::storage_may_fault()) && final(manager).counters() == old(manager).counters(),
                _ => false,
            },
        },
{
    match manager.use_key(key, now) {
        Ok(()) => Ok(true),
        Err(e) => Err(ApiKeyLayerError::from_manager_error(e)),
    }
}

/// The per-request state machine: extract the credential from the
/// `x-api-key` header, authorize it, and say whether the request may be
/// forwarded. An absent or unrenderable header is rejected before any
/// collaborator is consulted.
pub fn authorize_request<M: ApiKeyManager>(headers: &HeaderMap, manager: &mut M, now: u64) -> (r:
    Result<(), ApiKeyLayerError>)
    requires
        now + WINDOW_SECS <= u64::MAX,
    ensures
        final(manager).keys() == old(manager).keys(),
        match header_str(*headers, "x-api-key"@) {
            None => r == Err::<(), ApiKeyLayerError>(ApiKeyLayerError::MissingApiKey)
                && final(manager).counters() == old(manager).counters(),
            Some(k) => match r {
                Ok(()) => authorized_use(
                    old(manager).keys(),
                    old(manager).counters(),
                    final(manager).counters(),
                    k,
                    now,
                ),
                Err(e) => match e {
                    ApiKeyLayerError::LimiterError(ApiKeyLimiterError::RateLimitExceeded) => (
                    rate_limited_use(
                        old(manager).keys(),
                        old(manager).counters(),
                        final(manager).counters(),
                        k,
                        now,
                    )),
                    ApiKeyLayerError::LimiterError(ApiKeyLimiterError::Other(_)) => (
                    M::limiter_may_fault()),
                    ApiKeyLayerError::InvalidApiKey => (!old(manager).keys().dom().contains(k)
                        || M::storage_may_fault()) && final(manager).counters() == old(manager).counters(),
                    _ => false,
                },
            },
        },
{
    let key = match extract_header("x-api-key", headers) {
        Some(k) => k,
        None => {
            return Err(ApiKeyLayerError::MissingApiKey);
        },
    };
    match verify_api_key(manager, key.as_str(), now) {
        Ok(true) => Ok(()),
        Ok(false) => Err(ApiKeyLayerError::InvalidApiKey),
        Err(e) => Err(e),
    }
}

} // verus!
