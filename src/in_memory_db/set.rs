use vstd::prelude::*;

use super::{Entry, EntryModel, KeyValueStore};

verus! {

/// A request to store `value` under `key`, for `ttl` milliseconds when one is
/// given and for good otherwise.
pub struct SetRequest {
    pub key: String,
    pub value: String,
    pub ttl: Option<u64>,
}

/// A removal to run once `delay_ms` milliseconds have passed: it deletes
/// `key` only if its entry still expires at `expires_at`, so that a later
/// write to the key is not cut short.
pub struct ExpiryTimer {
    pub key: String,
    pub delay_ms: u64,
    pub expires_at: u64,
}

/// `now + ttl`, held at the largest instant when the sum does not fit.
pub open spec fn deadline(now: u64, ttl: u64) -> u64 {
    if now + ttl > u64::MAX {
        u64::MAX
    } else {
        (now + ttl) as u64
    }
}

/// The expiry instant of an entry written at `now` with `ttl`.
pub open spec fn expiry_for(ttl: Option<u64>, now: u64) -> Option<u64> {
    match ttl {
        Some(t) => Some(deadline(now, t)),
        None => None,
    }
}

/// The store after writing `value` under `key` at `now`.
pub open spec fn after_set(
    m: Map<Seq<char>, EntryModel>,
    key: Seq<char>,
    value: Seq<char>,
    ttl: Option<u64>,
    now: u64,
) -> Map<Seq<char>, EntryModel> {
    m.insert(key, (value, expiry_for(ttl, now)))
}

/// The store after the timer for `key` with deadline `expires_at` fires: the
/// entry goes only if it still carries that deadline.
pub open spec fn after_timer(
    m: Map<Seq<char>, EntryModel>,
    key: Seq<char>,
    expires_at: u64,
) -> Map<Seq<char>, EntryModel> {
    if m.contains_key(key) && m[key].1 == Some(expires_at) {
        m.remove(key)
    } else {
        m
    }
}

/// `timer` is the one a write of `key` with `ttl` at `now` schedules: none
/// without a ttl, else one that waits `ttl` and checks the entry's deadline.
pub open spec fn timer_for(timer: Option<ExpiryTimer>, key: Seq<char>, ttl: Option<u64>, now: u64) -> bool {
    match ttl {
        Some(t) => timer matches Some(tm) && tm.key@ == key && tm.delay_ms == t && tm.expires_at
            == deadline(now, t),
        None => timer is None,
    }
}

/// Writes `value` under `key` at instant `now`, replacing any entry the key
/// had. With a `ttl` the entry expires `ttl` milliseconds after `now`, and
/// the timer that removes it then is handed back for the caller to run.
pub fn set(store: &mut KeyValueStore, key: String, value: String, ttl: Option<u64>, now: u64) -> (r:
    Option<ExpiryTimer>)
    requires
        old(store).wf(),
    ensures
        final(store).wf(),
        final(store)@ == after_set(old(store)@, key@, value@, ttl, now),
        timer_for(r, key@, ttl, now),
{
    let expires_at = match ttl {
        Some(t) => Some(now.saturating_add(t)),
        None => None,
    };
    let timer = match expires_at {
        Some(at) => Some(ExpiryTimer { key: key.clone(), delay_ms: ttl.unwrap(), expires_at: at }),
        None => None,
    };
    store.insert(key, Entry { value, expires_at });
    timer
}

/// Runs a fired expiry timer: deletes `key` if its entry still expires at
/// `expires_at`, and does nothing otherwise.
pub fn remove_key(store: &mut KeyValueStore, key: &String, expires_at: u64)
    requires
        old(store).wf(),
    ensures
        final(store).wf(),
        final(store)@ == after_timer(old(store)@, key@, expires_at),
{
    let current = match store.entry(key) {
        Some(e) => e.expires_at == Some(expires_at),
        None => false,
    };
    if current {
        store.remove(key);
    }
}

} // verus!
