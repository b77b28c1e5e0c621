use vstd::prelude::*;

use super::{EntryModel, KeyValueStore};

verus! {

/// A request for the value held under `key`.
pub struct GetRequest {
    pub key: String,
}

/// An entry whose expiry instant is not after `now` is no longer visible.
pub open spec fn is_expired(expires_at: Option<u64>, now: u64) -> bool {
    match expires_at {
        Some(t) => t <= now,
        None => false,
    }
}

/// The value a read of `key` at `now` observes in `m`.
pub open spec fn lookup(m: Map<Seq<char>, EntryModel>, key: Seq<char>, now: u64) -> Option<Seq<char>> {
    if m.contains_key(key) && !is_expired(m[key].1, now) {
        Some(m[key].0)
    } else {
        None
    }
}

/// The store after a read of `key` at `now`: an expired entry for the key is
/// deleted, nothing else changes.
pub open spec fn after_get(m: Map<Seq<char>, EntryModel>, key: Seq<char>, now: u64) -> Map<Seq<char>, EntryModel> {
    if m.contains_key(key) && is_expired(m[key].1, now) {
        m.remove(key)
    } else {
        m
    }
}

/// What an optional string is to the contracts.
pub open spec fn opt_view(s: Option<String>) -> Option<Seq<char>> {
    match s {
        Some(v) => Some(v@),
        None => None,
    }
}

/// Reads `key` at instant `now`: a copy of its value, or `None` when the key
/// is absent or its entry has expired, in which case the entry is deleted.
pub fn get(store: &mut KeyValueStore, key: String, now: u64) -> (r: Option<String>)
    requires
        old(store).wf(),
    ensures
        final(store).wf(),
        opt_view(r) == lookup(old(store)@, key@, now),
        final(store)@ == after_get(old(store)@, key@, now),
{
    let expired = match store.entry(&key) {
        None => {
            return None;
        },
        Some(e) => match e.expires_at {
            Some(t) => t <= now,
            None => false,
        },
    };
    if expired {
        store.remove(&key);
        None
    } else {
        match store.entry(&key) {
            Some(e) => Some(e.value.clone()),
            None => None,
        }
    }
}

} // verus!
