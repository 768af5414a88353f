//! The error taxonomy of the storage, limiter and manager tiers.
//!
//! Each tier carries a stable machine-readable kind; conversions between
//! tiers never discard the inner kind.

use vstd::prelude::*;
use vstd::string::StringExecFns;

verus! {

/// What a key store can report.
#[derive(Debug)]
pub enum ApiKeyStorageError {
    KeyNotFound,
    KeyAlreadyExists,
    SerializationError(String),
    StorageError(String),
}

/// What a limiter can report.
#[derive(Debug)]
pub enum ApiKeyLimiterError {
    RateLimitExceeded,
    Other(String),
}

/// What the key manager reports: either tier wrapped verbatim, or an
/// uncategorized failure.
#[derive(Debug)]
pub enum ApiKeyManagerError {
    StorageError(ApiKeyStorageError),
    LimiterError(ApiKeyLimiterError),
    Other(String),
}

/// The machine-readable kind of a storage error.
pub open spec fn storage_message_type(e: ApiKeyStorageError) -> Seq<char> {
    match e {
        ApiKeyStorageError::KeyNotFound => "KeyNotFound"@,
        ApiKeyStorageError::KeyAlreadyExists => "KeyAlreadyExists"@,
        ApiKeyStorageError::SerializationError(_) => "SerializationError"@,
        ApiKeyStorageError::StorageError(_) => "StorageError"@,
    }
}

/// The human-readable message of a storage error.
pub open spec fn storage_message(e: ApiKeyStorageError) -> Seq<char> {
    match e {
        ApiKeyStorageError::KeyNotFound => "Key not found"@,
        ApiKeyStorageError::KeyAlreadyExists => "Key already exists"@,
        ApiKeyStorageError::SerializationError(d) => "Serialization error: "@ + d@,
        ApiKeyStorageError::StorageError(d) => "Storage error: "@ + d@,
    }
}

/// The machine-readable kind of a limiter error.
pub open spec fn limiter_message_type(e: ApiKeyLimiterError) -> Seq<char> {
    match e {
        ApiKeyLimiterError::RateLimitExceeded => "RateLimitExceeded"@,
        ApiKeyLimiterError::Other(_) => "ApiLimiter::Other"@,
    }
}

/// The human-readable message of a limiter error.
pub open spec fn limiter_message(e: ApiKeyLimiterError) -> Seq<char> {
    match e {
        ApiKeyLimiterError::RateLimitExceeded => "Rate limit exceeded"@,
        ApiKeyLimiterError::Other(d) => "Other error: "@ + d@,
    }
}

impl ApiKeyStorageError {
    /// The stable kind string, as it appears in the rejection payload.
    pub fn to_message_type(&self) -> (r: String)
        ensures
            r@ == storage_message_type(*self),
    {
        match *self {
            ApiKeyStorageError::KeyNotFound => String::from_str("KeyNotFound"),
            ApiKeyStorageError::KeyAlreadyExists => String::from_str("KeyAlreadyExists"),
            ApiKeyStorageError::SerializationError(_) => String::from_str("SerializationError"),
            ApiKeyStorageError::StorageError(_) => String::from_str("StorageError"),
        }
    }

    /// The human-readable message, with the backend detail appended.
    pub fn to_message(&self) -> (r: String)
        ensures
            r@ == storage_message(*self),
    {
        match self {
            ApiKeyStorageError::KeyNotFound => String::from_str("Key not found"),
            ApiKeyStorageError::KeyAlreadyExists => String::from_str("Key already exists"),
            ApiKeyStorageError::SerializationError(d) => String::from_str(
                "Serialization error: ",
            ).concat(d.as_str()),
            ApiKeyStorageError::StorageError(d) => String::from_str("Storage error: ").concat(
                d.as_str(),
            ),
        }
    }
}

impl ApiKeyLimiterError {
    /// The stable kind string, as it appears in the rejection payload.
    pub fn to_message_type(&self) -> (r: String)
        ensures
            r@ == limiter_message_type(*self),
    {
        match *self {
            ApiKeyLimiterError::RateLimitExceeded => String::from_str("RateLimitExceeded"),
            ApiKeyLimiterError::Other(_) => String::from_str("ApiLimiter::Other"),
        }
    }

    /// The human-readable message, with the backend detail appended.
    pub fn to_message(&self) -> (r: String)
        ensures
            r@ == limiter_message(*self),
    {
        match self {
            ApiKeyLimiterError::RateLimitExceeded => String::from_str("Rate limit exceeded"),
            ApiKeyLimiterError::Other(d) => String::from_str("Other error: ").concat(d.as_str()),
        }
    }
}

impl ApiKeyManagerError {
    /// Wraps a storage-tier error without losing its kind.
    pub fn from_storage(e: ApiKeyStorageError) -> (r: Self)
        ensures
            r == ApiKeyManagerError::StorageError(e),
    {
        ApiKeyManagerError::StorageError(e)
    }

    /// Wraps a limiter-tier error without losing its kind.
    pub fn from_limiter(e: ApiKeyLimiterError) -> (r: Self)
        ensures
            r == ApiKeyManagerError::LimiterError(e),
    {
        ApiKeyManagerError::LimiterError(e)
    }
}

} // verus!
