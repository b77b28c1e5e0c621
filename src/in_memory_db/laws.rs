use vstd::prelude::*;

use super::get::{after_get, is_expired, lookup};
use super::set::{after_set, after_timer, deadline};
use super::EntryModel;

verus! {

/// The store after the writes in `writes` (key, value, instant), in order,
/// none of them with a ttl.
pub open spec fn after_writes(
    m: Map<Seq<char>, EntryModel>,
    writes: Seq<(Seq<char>, Seq<char>, u64)>,
) -> Map<Seq<char>, EntryModel>
    decreases writes.len(),
{
    if writes.len() == 0 {
        m
    } else {
        let w = writes.last();
        after_set(after_writes(m, writes.drop_last()), w.0, w.1, None, w.2)
    }
}

/// A value written without a ttl is read back at every instant after, and the
/// read leaves the store as it found it, so it is read back as often as asked.
pub proof fn lemma_set_without_ttl_persists(
    m: Map<Seq<char>, EntryModel>,
    key: Seq<char>,
    value: Seq<char>,
    now_set: u64,
    now_get: u64,
)
    ensures
        lookup(after_set(m, key, value, None, now_set), key, now_get) == Some(value),
        after_get(after_set(m, key, value, None, now_set), key, now_get) == after_set(
            m,
            key,
            value,
            None,
            now_set,
        ),
{
}

/// A value written with a ttl of at least one millisecond is read back at the
/// instant of the write, is not found once more than the ttl has passed, and
/// is gone once its own timer fires. (At the last instant the clock can hold
/// no ttl fits, so the write is taken to happen before it.)
pub proof fn lemma_set_with_ttl_expires(
    m: Map<Seq<char>, EntryModel>,
    key: Seq<char>,
    value: Seq<char>,
    ttl: u64,
    now: u64,
    later: u64,
)
    requires
        ttl > 0,
        now < u64::MAX,
    ensures
        lookup(after_set(m, key, value, Some(ttl), now), key, now) == Some(value),
        later > now + ttl ==> lookup(after_set(m, key, value, Some(ttl), now), key, later) is None,
        !after_timer(after_set(m, key, value, Some(ttl), now), key, deadline(now, ttl)).contains_key(
            key,
        ),
{
}

/// A second write to a key hides the first: the read finds the second value.
pub proof fn lemma_overwrite(
    m: Map<Seq<char>, EntryModel>,
    key: Seq<char>,
    v1: Seq<char>,
    v2: Seq<char>,
    now1: u64,
    now2: u64,
    now_get: u64,
)
    ensures
        lookup(after_set(after_set(m, key, v1, None, now1), key, v2, None, now2), key, now_get)
            == Some(v2),
{
}

/// A read of a key the store does not hold finds nothing and changes nothing,
/// so the miss repeats.
pub proof fn lemma_miss_is_stable(m: Map<Seq<char>, EntryModel>, key: Seq<char>, now: u64)
    requires
        !m.contains_key(key),
    ensures
        lookup(m, key, now) is None,
        after_get(m, key, now) == m,
{
}

/// Writes applied one at a time, in whatever order their connections got to
/// the store, lose nothing: each key written holds the value of the last write
/// to it.
pub proof fn lemma_last_write_wins(
    m: Map<Seq<char>, EntryModel>,
    writes: Seq<(Seq<char>, Seq<char>, u64)>,
    i: int,
)
    requires
        0 <= i < writes.len(),
        forall|j: int| i < j < writes.len() ==> #[trigger] writes[j].0 != writes[i].0,
    ensures
        after_writes(m, writes).contains_key(writes[i].0),
        after_writes(m, writes)[writes[i].0] == (writes[i].1, None::<u64>),
    decreases writes.len(),
{
    if i < writes.len() - 1 {
        let rest = writes.drop_last();
        assert forall|j: int| i < j < rest.len() implies #[trigger] rest[j].0 != rest[i].0 by {
            assert(rest[j] == writes[j]);
        }
        lemma_last_write_wins(m, rest, i);
        assert(writes.last().0 != writes[i].0);
    }
}

/// The timer of an earlier write to a key does not remove a later write to it
/// that carries another deadline: until its own deadline the later value is
/// read back.
pub proof fn lemma_stale_timer_spares_rewrite(
    m: Map<Seq<char>, EntryModel>,
    key: Seq<char>,
    v1: Seq<char>,
    v2: Seq<char>,
    ttl1: u64,
    ttl2: u64,
    now1: u64,
    now2: u64,
    now_get: u64,
)
    requires
        deadline(now1, ttl1) != deadline(now2, ttl2),
    ensures
        ({
            let m2 = after_set(after_set(m, key, v1, Some(ttl1), now1), key, v2, Some(ttl2), now2);
            &&& after_timer(m2, key, deadline(now1, ttl1)) == m2
            &&& !is_expired(Some(deadline(now2, ttl2)), now_get) ==> lookup(
                after_timer(m2, key, deadline(now1, ttl1)),
                key,
                now_get,
            ) == Some(v2)
        }),
{
}

} // verus!
