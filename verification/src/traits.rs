//! The capability contracts of the pipeline's collaborators.
//!
//! A storage port resolves identifiers to key records; a limiter port
//! admits or rejects one use of a resolved key; a manager composes the
//! two. Any backend satisfying a port's contract is interchangeable.

use vstd::prelude::*;

use crate::errors::{ApiKeyLimiterError, ApiKeyManagerError, ApiKeyStorageError};
use crate::limiters::{admit_allowed, counters_after_admit, CounterState, WINDOW_SECS};
use crate::types::{ApiKey, ApiKeyModel};

verus! {

/// Capability to fetch, insert and delete a key record by its identifier.
///
/// `contents` is the store's abstract state. A backend that can fail for
/// reasons of its own (a remote store) says so through `may_fault`; an
/// in-memory backend sets it to false and then owes the exact outcome.
pub trait ApiKeyStorage: Sized {
    /// The records held, keyed by identifier.
    spec fn contents(&self) -> Map<Seq<char>, ApiKeyModel>;

    /// Whether the backend can fail with a serialization or backend fault.
    spec fn may_fault() -> bool;

    /// Inserts a record under `key`; rejects an identifier already present.
    fn store_api_key(&mut self, key: &str, value: &ApiKey) -> (r: Result<
        String,
        ApiKeyStorageError,
    >)
        ensures
            match r {
                Ok(stored) => stored@ == key@ && !old(self).contents().dom().contains(key@)
                    && final(self).contents() == old(self).contents().insert(key@, value@),
                Err(e) => match e {
                    ApiKeyStorageError::KeyAlreadyExists => old(self).contents().dom().contains(
                        key@,
                    ) && final(self).contents() == old(self).contents(),
                    ApiKeyStorageError::KeyNotFound => false,
                    _ => Self::may_fault(),
                },
            },
    ;

    /// Fetches the record stored under `key`.
    fn retrieve_api_key(&self, key: &str) -> (r: Result<ApiKey, ApiKeyStorageError>)
        ensures
            match r {
                Ok(record) => self.contents().dom().contains(key@) && record@
                    == self.contents()[key@],
                Err(e) => match e {
                    ApiKeyStorageError::KeyNotFound => !self.contents().dom().contains(key@),
                    ApiKeyStorageError::StorageError(_) => Self::may_fault(),
                    _ => false,
                },
            },
    ;

    /// Removes the record under `key`; says whether one was removed
    /// (absence is not an error).
    fn delete_api_key(&mut self, key: &str) -> (r: Result<bool, ApiKeyStorageError>)
        ensures
            match r {
                Ok(removed) => if removed {
                    old(self).contents().dom().contains(key@) && final(self).contents() == old(
                        self,
                    ).contents().remove(key@)
                } else {
                    !old(self).contents().dom().contains(key@) && final(self).contents() == old(
                        self,
                    ).contents()
                },
                Err(e) => match e {
                    ApiKeyStorageError::StorageError(_) => Self::may_fault(),
                    _ => false,
                },
            },
    ;
}

/// Capability to admit or reject one use of a resolved key against its
/// read quota, over a counter store with expiring keys.
///
/// `counters` is the limiter's abstract state. `now` is the instant of
/// the use, in seconds; a remote backend says through `may_fault` that a
/// use can fail for reasons of its own.
pub trait ApiKeyLimiter: Sized {
    /// The counters held, keyed by counter key.
    spec fn counters(&self) -> Map<Seq<char>, CounterState>;

    /// Whether the backend can fail with a fault of its own.
    spec fn may_fault() -> bool;

    /// Admits or rejects one use of `api_key` at `now`.
    fn use_key(&mut self, api_key: &ApiKey, now: u64) -> (r: Result<(), ApiKeyLimiterError>)
        requires
            now + WINDOW_SECS <= u64::MAX,
        ensures
            match r {
                Ok(()) => admit_allowed(
                    api_key@.limits.max_reads_per_minute,
                    old(self).counters(),
                    api_key@.key,
                    now,
                ) && final(self).counters() == counters_after_admit(
                    api_key@.limits.max_reads_per_minute,
                    old(self).counters(),
                    api_key@.key,
                    now,
                ),
                Err(e) => match e {
                    ApiKeyLimiterError::RateLimitExceeded => !admit_allowed(
                        api_key@.limits.max_reads_per_minute,
                        old(self).counters(),
                        api_key@.key,
                        now,
                    ) && final(self).counters() == counters_after_admit(
                        api_key@.limits.max_reads_per_minute,
                        old(self).counters(),
                        api_key@.key,
                        now,
                    ),
                    ApiKeyLimiterError::Other(_) => Self::may_fault(),
                },
            },
    ;
}

/// The composition point: authorize one use of the key named by an
/// identifier, consulting storage first and the limiter only on a hit.
pub trait ApiKeyManager: Sized {
    /// The records of the underlying store.
    spec fn keys(&self) -> Map<Seq<char>, ApiKeyModel>;

    /// The counters of the underlying limiter.
    spec fn counters(&self) -> Map<Seq<char>, CounterState>;

    /// Whether the underlying store can fail with a fault of its own.
    spec fn storage_may_fault() -> bool;

    /// Whether the underlying limiter can fail with a fault of its own.
    spec fn limiter_may_fault() -> bool;

    /// Fetches a record: pure delegation to the store, storage errors
    /// translated to manager-level errors.
    fn get_key(&self, key: &str) -> (r: Result<ApiKey, ApiKeyManagerError>)
        ensures
            match r {
                Ok(record) => self.keys().dom().contains(key@) && record@ == self.keys()[key@],
                Err(e) => match e {
                    ApiKeyManagerError::StorageError(ApiKeyStorageError::KeyNotFound) => !self
                        .keys().dom().contains(key@),
                    ApiKeyManagerError::StorageError(ApiKeyStorageError::StorageError(_)) => (
                    Self::storage_may_fault()),
                    _ => false,
                },
            },
    ;

    /// Authorizes one use of the key named `key` at `now`: the record is
    /// resolved first, then the limiter is consulted with that record, so
    /// quota is counted against the record's own identifier. A storage
    /// miss short-circuits: an identifier that resolves to no record never
    /// consumes quota, so the counters stay as they were.
    fn use_key(&mut self, key: &str, now: u64) -> (r: Result<(), ApiKeyManagerError>)
        requires
            now + WINDOW_SECS <= u64::MAX,
        ensures
            final(self).keys() == old(self).keys(),
            match r {
                Ok(()) => old(self).keys().dom().contains(key@) && admit_allowed(
                    old(self).keys()[key@].limits.max_reads_per_minute,
                    old(self).counters(),
                    old(self).keys()[key@].key,
                    now,
                ) && final(self).counters() == counters_after_admit(
                    old(self).keys()[key@].limits.max_reads_per_minute,
                    old(self).counters(),
                    old(self).keys()[key@].key,
                    now,
                ),
                Err(e) => match e {
                    ApiKeyManagerError::StorageError(ApiKeyStorageError::KeyNotFound) => !old(
                        self,
                    ).keys().dom().contains(key@) && final(self).counters() == old(self).counters(),
                    ApiKeyManagerError::StorageError(ApiKeyStorageError::StorageError(_)) => (
                    Self::storage_may_fault() && final(self).counters() == old(self).counters()),
                    ApiKeyManagerError::LimiterError(ApiKeyLimiterError::RateLimitExceeded) => old(
                        self,
                    ).keys().dom().contains(key@) && !admit_allowed(
                        old(self).keys()[key@].limits.max_reads_per_minute,
                        old(self).counters(),
                        old(self).keys()[key@].key,
                        now,
                    ) && final(self).counters() == counters_after_admit(
                        old(self).keys()[key@].limits.max_reads_per_minute,
                        old(self).counters(),
                        old(self).keys()[key@].key,
                        now,
                    ),
                    ApiKeyManagerError::LimiterError(ApiKeyLimiterError::Other(_)) => (
                    Self::limiter_may_fault()),
                    _ => false,
                },
            },
    ;
}

} // verus!
