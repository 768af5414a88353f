//! The in-memory key store.

use vstd::prelude::*;

use crate::assoc::{
    assoc_map, distinct_keys, find_key, lemma_assoc_map_dom, lemma_assoc_map_index,
    lemma_assoc_map_push, lemma_assoc_map_remove, lemma_distinct_remove,
};
use crate::errors::ApiKeyStorageError;
use crate::traits::ApiKeyStorage;
use crate::types::{ApiKey, ApiKeyModel};

verus! {

/// The entries of the backing vector as plain values.
pub open spec fn record_entries_model(s: Seq<(String, ApiKey)>) -> Seq<(Seq<char>, ApiKeyModel)> {
    s.map_values(|p: (String, ApiKey)| (p.0@, p.1@))
}

/// The delete idempotence law, on the store's abstract contents: once an
/// identifier is removed it resolves to nothing, so a second delete finds
/// nothing to remove and a retrieve misses.
pub proof fn lemma_delete_then_retrieve(contents: Map<Seq<char>, ApiKeyModel>, key: Seq<char>)
    ensures
        !contents.remove(key).dom().contains(key),
        contents.remove(key).remove(key) == contents.remove(key),
{
    assert(contents.remove(key).remove(key) =~= contents.remove(key));
}

/// The round-trip law, on the store's abstract contents: after a record
/// is stored under an identifier, that identifier resolves to a record
/// equal to it field for field.
pub proof fn lemma_store_then_retrieve(
    contents: Map<Seq<char>, ApiKeyModel>,
    key: Seq<char>,
    record: ApiKeyModel,
)
    ensures
        contents.insert(key, record).dom().contains(key),
        contents.insert(key, record)[key] == record,
{
}

/// A key store over an in-process map. Identifiers are unique: inserting
/// one already present is rejected, the same contract the pipeline asks
/// of every backend.
pub struct HashMapStorage {
    entries: Vec<(String, ApiKey)>,
}

impl HashMapStorage {
    #[verifier::type_invariant]
    closed spec fn wf(&self) -> bool {
        distinct_keys(record_entries_model(self.entries@))
    }

    /// An empty store.
    pub fn new() -> (r: Self)
        ensures
            r.contents() == Map::<Seq<char>, ApiKeyModel>::empty(),
    {
        let r = HashMapStorage { entries: Vec::new() };
        proof {
            assert(record_entries_model(r.entries@) =~= Seq::empty());
        }
        r
    }
}

impl Default for HashMapStorage {
    /// The same as an empty store.
    fn default() -> (r: Self)
        ensures
            r.contents() == Map::<Seq<char>, ApiKeyModel>::empty(),
    {
        HashMapStorage::new()
    }
}

impl ApiKeyStorage for HashMapStorage {
    closed spec fn contents(&self) -> Map<Seq<char>, ApiKeyModel> {
        assoc_map(record_entries_model(self.entries@))
    }

    open spec fn may_fault() -> bool {
        false
    }

    fn store_api_key(&mut self, key: &str, value: &ApiKey) -> (r: Result<
        String,
        ApiKeyStorageError,
    >) {
        proof {
            use_type_invariant(&*self);
        }
        let owned = key.to_owned();
        let ghost pre = record_entries_model(old(self).entries@);
        proof {
            lemma_assoc_map_dom(pre, key@);
        }
        let found = find_key(&self.entries, &owned);
        match found {
            Some(i) => {
                proof {
                    assert(pre[i as int].0 == key@);
                }
                Err(ApiKeyStorageError::KeyAlreadyExists)
            },
            None => {
                let record = value.clone();
                let mut entries: Vec<(String, ApiKey)> = Vec::new();
                core::mem::swap(&mut entries, &mut self.entries);
                entries.push((owned, record));
                proof {
                    assert(record_entries_model(entries@) =~= pre.push((key@, value@)));
                    lemma_assoc_map_push(pre, key@, value@);
                    assert(distinct_keys(record_entries_model(entries@))) by {
                        assert(forall|p: int|
                            0 <= p < pre.len() ==> record_entries_model(entries@)[p].0
                                == pre[p].0);
                    }
                }
                self.entries = entries;
                Ok(key.to_owned())
            },
        }
    }

    fn retrieve_api_key(&self, key: &str) -> (r: Result<ApiKey, ApiKeyStorageError>) {
        proof {
            use_type_invariant(&*self);
        }
        let owned = key.to_owned();
        proof {
            lemma_assoc_map_dom(record_entries_model(self.entries@), key@);
        }
        let found = find_key(&self.entries, &owned);
        match found {
            Some(i) => {
                proof {
                    lemma_assoc_map_index(record_entries_model(self.entries@), i as int);
                }
                Ok(self.entries[i].1.clone())
            },
            None => Err(ApiKeyStorageError::KeyNotFound),
        }
    }

    fn delete_api_key(&mut self, key: &str) -> (r: Result<bool, ApiKeyStorageError>) {
        proof {
            use_type_invariant(&*self);
        }
        let owned = key.to_owned();
        let ghost pre = record_entries_model(old(self).entries@);
        proof {
            lemma_assoc_map_dom(pre, key@);
        }
        let found = find_key(&self.entries, &owned);
        match found {
            Some(i) => {
                let mut entries: Vec<(String, ApiKey)> = Vec::new();
                core::mem::swap(&mut entries, &mut self.entries);
                entries.remove(i);
                proof {
                    assert(record_entries_model(entries@) =~= pre.remove(i as int));
                    lemma_assoc_map_remove(pre, i as int);
                    lemma_distinct_remove(pre, i as int);
                }
                self.entries = entries;
                Ok(true)
            },
            None => Ok(false),
        }
    }
}

} // verus!
