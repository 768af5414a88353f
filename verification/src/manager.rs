//! The key manager: storage lookup composed with quota enforcement.

use vstd::prelude::*;

use crate::errors::ApiKeyManagerError;
use crate::limiters::CounterState;
use crate::traits::{ApiKeyLimiter, ApiKeyManager, ApiKeyStorage};
use crate::types::{ApiKey, ApiKeyModel};

verus! {

/// Composes a storage port and a limiter port into a single
/// "authorize one use of key X" operation.
pub struct KeyManager<S, L> where S: ApiKeyStorage, L: ApiKeyLimiter {
    storage: S,
    limiter: L,
}

impl<S, L> KeyManager<S, L> where S: ApiKeyStorage, L: ApiKeyLimiter {
    /// A manager over the given collaborators.
    pub fn new(storage: S, limiter: L) -> (r: Self)
        ensures
            r.keys() == storage.contents(),
            r.counters() == limiter.counters(),
    {
        KeyManager { storage, limiter }
    }
}

impl<S, L> ApiKeyManager for KeyManager<S, L> where S: ApiKeyStorage, L: ApiKeyLimiter {
    closed spec fn keys(&self) -> Map<Seq<char>, ApiKeyModel> {
        self.storage.contents()
    }

    closed spec fn counters(&self) -> Map<Seq<char>, CounterState> {
        self.limiter.counters()
    }

    open spec fn storage_may_fault() -> bool {
        S::may_fault()
    }

    open spec fn limiter_may_fault() -> bool {
        L::may_fault()
    }

    fn get_key(&self, key: &str) -> (r: Result<ApiKey, ApiKeyManagerError>) {
        match self.storage.retrieve_api_key(key) {
            Ok(record) => Ok(record),
            Err(e) => Err(ApiKeyManagerError::from_storage(e)),
        }
    }

    fn use_key(&mut self, key: &str, now: u64) -> (r: Result<(), ApiKeyManagerError>) {
        let api_key = match self.get_key(key) {
            Ok(record) => record,
            Err(e) => {
                return Err(e);
            },
        };
        match self.limiter.use_key(&api_key, now) {
            Ok(()) => Ok(()),
            Err(e) => Err(ApiKeyManagerError::from_limiter(e)),
        }
    }
}

} // verus!
