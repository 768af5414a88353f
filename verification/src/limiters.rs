//! The fixed-window rate limiter.
//!
//! One "use" of a key derives a counter key from the identifier,
//! establishes a 60-second window on first use, increments the counter,
//! and rejects once the post-increment value exceeds the ceiling.

use vstd::prelude::*;
use vstd::string::StringExecFns;

use crate::assoc::{
    assoc_map, distinct_keys, find_key, lemma_assoc_map_dom, lemma_assoc_map_index,
    lemma_assoc_map_push, lemma_assoc_map_update,
};
use crate::errors::ApiKeyLimiterError;
use crate::traits::ApiKeyLimiter;
use crate::types::{ApiKey, ApiKeyLimit};

verus! {

/// Length of the fixed window, in seconds.
pub const WINDOW_SECS: u64 = 60;

/// One counter: its post-increment value and the instant its window ends.
#[derive(Clone, Copy, Debug, PartialEq, Eq, Structural)]
pub struct CounterState {
    pub count: u64,
    pub expires_at: u64,
}

/// The counter key derived from a key's identifier for the read class.
pub open spec fn read_counter_key(key: Seq<char>) -> Seq<char> {
    key + "_read_count"@
}

/// Whether a counter exists and its window is still open at `now`.
pub open spec fn window_live(
    counters: Map<Seq<char>, CounterState>,
    ckey: Seq<char>,
    now: u64,
) -> bool {
    counters.dom().contains(ckey) && now < counters[ckey].expires_at
}

/// The post-increment value one use observes at `now`: a fresh window
/// starts at one; a live window's counter goes up by one (the counter
/// saturates rather than wrap).
pub open spec fn bumped_count(
    counters: Map<Seq<char>, CounterState>,
    ckey: Seq<char>,
    now: u64,
) -> u64 {
    if window_live(counters, ckey, now) {
        if counters[ckey].count == u64::MAX {
            u64::MAX
        } else {
            (counters[ckey].count + 1) as u64
        }
    } else {
        1
    }
}

/// The counters after one use at `now`: the touched counter carries the
/// post-increment value; a fresh window expires `WINDOW_SECS` from `now`.
pub open spec fn counters_after_bump(
    counters: Map<Seq<char>, CounterState>,
    ckey: Seq<char>,
    now: u64,
) -> Map<Seq<char>, CounterState> {
    counters.insert(
        ckey,
        CounterState {
            count: bumped_count(counters, ckey, now),
            expires_at: if window_live(counters, ckey, now) {
                counters[ckey].expires_at
            } else {
                (now + WINDOW_SECS) as u64
            },
        },
    )
}

/// Whether one use of a key with read quota `limit` is admitted at `now`.
/// An unlimited quota admits unconditionally; a bounded one admits while
/// the post-increment count stays within the ceiling.
pub open spec fn admit_allowed(
    limit: ApiKeyLimit,
    counters: Map<Seq<char>, CounterState>,
    key: Seq<char>,
    now: u64,
) -> bool {
    match limit {
        ApiKeyLimit::Unlimited => true,
        ApiKeyLimit::Limited(n) => bumped_count(counters, read_counter_key(key), now) <= n as u64,
    }
}

/// The counters after one use of a key with read quota `limit` at `now`.
/// An unlimited quota touches no counter.
pub open spec fn counters_after_admit(
    limit: ApiKeyLimit,
    counters: Map<Seq<char>, CounterState>,
    key: Seq<char>,
    now: u64,
) -> Map<Seq<char>, CounterState> {
    match limit {
        ApiKeyLimit::Unlimited => counters,
        ApiKeyLimit::Limited(_) => counters_after_bump(counters, read_counter_key(key), now),
    }
}

/// The admit decision on a post-increment counter value: admitted while
/// the value stays within the ceiling, rejected beyond it.
pub fn read_admit_outcome(max: u32, post_count: u64) -> (r: Result<(), ApiKeyLimiterError>)
    ensures
        post_count <= max as u64 <==> r is Ok,
        r is Err ==> r == Err::<(), ApiKeyLimiterError>(ApiKeyLimiterError::RateLimitExceeded),
{
    if post_count > max as u64 {
        Err(ApiKeyLimiterError::RateLimitExceeded)
    } else {
        Ok(())
    }
}

/// The counters after a run of `j` uses of one counter key, all at `now`.
pub open spec fn counters_after_uses(
    counters: Map<Seq<char>, CounterState>,
    ckey: Seq<char>,
    now: u64,
    j: nat,
) -> Map<Seq<char>, CounterState>
    decreases j,
{
    if j == 0 {
        counters
    } else {
        counters_after_bump(counters_after_uses(counters, ckey, now, (j - 1) as nat), ckey, now)
    }
}

/// The fixed-window quota law. Starting with no counter for a key whose
/// read quota is `Limited(n)`, in a run of uses within one window the
/// `j`-th use is admitted exactly when `j <= n`, and after `j` uses the
/// counter carries the value `j` and the window set by the first use.
pub proof fn lemma_window_quota(
    counters: Map<Seq<char>, CounterState>,
    key: Seq<char>,
    n: u32,
    now: u64,
    j: nat,
)
    requires
        !counters.dom().contains(read_counter_key(key)),
        now + WINDOW_SECS <= u64::MAX,
        1 <= j <= u64::MAX,
    ensures
        admit_allowed(
            ApiKeyLimit::Limited(n),
            counters_after_uses(counters, read_counter_key(key), now, (j - 1) as nat),
            key,
            now,
        ) <==> j <= n,
        counters_after_uses(counters, read_counter_key(key), now, j)[read_counter_key(key)]
            == (CounterState { count: j as u64, expires_at: (now + WINDOW_SECS) as u64 }),
    decreases j,
{
    if j > 1 {
        lemma_window_quota(counters, key, n, now, (j - 1) as nat);
    }
}

/// The fresh-window law: once a key's window has expired (or no counter
/// exists), the next use under any positive ceiling is admitted again and
/// the counter restarts at one.
pub proof fn lemma_window_expired_fresh(
    counters: Map<Seq<char>, CounterState>,
    key: Seq<char>,
    n: u32,
    now: u64,
)
    requires
        !window_live(counters, read_counter_key(key), now),
        1 <= n,
    ensures
        admit_allowed(ApiKeyLimit::Limited(n), counters, key, now),
        counters_after_admit(ApiKeyLimit::Limited(n), counters, key, now)[read_counter_key(key)]
            == (CounterState { count: 1, expires_at: (now + WINDOW_SECS) as u64 }),
{
}

/// The entries of the backing vector as plain values.
pub open spec fn counter_entries_model(s: Seq<(String, CounterState)>) -> Seq<
    (Seq<char>, CounterState),
> {
    s.map_values(|p: (String, CounterState)| (p.0@, p.1))
}

/// An in-memory counter store enforcing the fixed-window algorithm.
pub struct FixedWindowLimiter {
    entries: Vec<(String, CounterState)>,
}

/// Builds the counter key of a key's read class: `<identifier>_read_count`.
pub fn read_counter_key_of(identifier: &String) -> (r: String)
    ensures
        r@ == read_counter_key(identifier@),
{
    identifier.clone().concat("_read_count")
}

impl FixedWindowLimiter {
    #[verifier::type_invariant]
    closed spec fn wf(&self) -> bool {
        distinct_keys(counter_entries_model(self.entries@))
    }

    /// A limiter with no counters: no key has been used yet.
    pub fn new() -> (r: Self)
        ensures
            r.counters() == Map::<Seq<char>, CounterState>::empty(),
    {
        let r = FixedWindowLimiter { entries: Vec::new() };
        proof {
            assert(counter_entries_model(r.entries@) =~= Seq::empty());
        }
        r
    }

    /// The counter recorded for a key's read class, if any.
    pub fn counter_of(&self, identifier: &String) -> (r: Option<CounterState>)
        ensures
            match r {
                Some(c) => self.counters().dom().contains(read_counter_key(identifier@)) && c
                    == self.counters()[read_counter_key(identifier@)],
                None => !self.counters().dom().contains(read_counter_key(identifier@)),
            },
    {
        proof {
            use_type_invariant(&*self);
        }
        let ckey = read_counter_key_of(identifier);
        let found = find_key(&self.entries, &ckey);
        proof {
            lemma_assoc_map_dom(counter_entries_model(self.entries@), ckey@);
        }
        match found {
            Some(i) => {
                proof {
                    lemma_assoc_map_index(counter_entries_model(self.entries@), i as int);
                }
                Some(self.entries[i].1)
            },
            None => None,
        }
    }
}

impl ApiKeyLimiter for FixedWindowLimiter {
    closed spec fn counters(&self) -> Map<Seq<char>, CounterState> {
        assoc_map(counter_entries_model(self.entries@))
    }

    open spec fn may_fault() -> bool {
        false
    }

    fn use_key(&mut self, api_key: &ApiKey, now: u64) -> (r: Result<(), ApiKeyLimiterError>) {
        proof {
            use_type_invariant(&*self);
        }
        match api_key.limits.max_reads_per_minute {
            ApiKeyLimit::Unlimited => Ok(()),
            ApiKeyLimit::Limited(max) => {
                let ckey = read_counter_key_of(&api_key.key);
                let ghost pre = counter_entries_model(old(self).entries@);
                let mut entries: Vec<(String, CounterState)> = Vec::new();
                core::mem::swap(&mut entries, &mut self.entries);
                let found = find_key(&entries, &ckey);
                proof {
                    lemma_assoc_map_dom(pre, ckey@);
                }
                let post_count: u64 = match found {
                    Some(i) => {
                        proof {
                            lemma_assoc_map_index(pre, i as int);
                        }
                        let state = entries[i].1;
                        let fresh = now >= state.expires_at;
                        let next = if fresh {
                            CounterState { count: 1, expires_at: now + WINDOW_SECS }
                        } else if state.count == u64::MAX {
                            state
                        } else {
                            CounterState { count: state.count + 1, expires_at: state.expires_at }
                        };
                        let stored_key = entries.remove(i);
                        entries.insert(i, (stored_key.0, next));
                        proof {
                            assert(counter_entries_model(entries@) =~= pre.update(
                                i as int,
                                (ckey@, next),
                            ));
                            assert(pre[i as int].0 == ckey@);
                            lemma_assoc_map_update(pre, i as int, next);
                            assert(distinct_keys(counter_entries_model(entries@))) by {
                                assert(forall|p: int|
                                    0 <= p < pre.len() ==> counter_entries_model(entries@)[p].0
                                        == pre[p].0);
                            }
                        }
                        next.count
                    },
                    None => {
                        let next = CounterState { count: 1, expires_at: now + WINDOW_SECS };
                        entries.push((ckey, next));
                        proof {
                            assert(counter_entries_model(entries@) =~= pre.push((ckey@, next)));
                            lemma_assoc_map_push(pre, ckey@, next);
                            assert(distinct_keys(counter_entries_model(entries@))) by {
                                assert(forall|p: int|
                                    0 <= p < pre.len() ==> counter_entries_model(entries@)[p].0
                                        == pre[p].0);
                            }
                        }
                        next.count
                    },
                };
                self.entries = entries;
                read_admit_outcome(max, post_count)
            },
        }
    }
}

} // verus!
