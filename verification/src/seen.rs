//! The replay cache: which gossip messages a peer has sent, and when.
//!
//! A message is known by its identifier together with the random nonce it
//! carried. Times are nanoseconds on a clock of the caller's choosing; the cache
//! only ever compares two readings of that clock.

use std::collections::HashMap;
use vstd::prelude::*;

verus! {

/// How many clock ticks make up one second.
pub const NANOS_PER_SECOND: u128 = 1_000_000_000;

/// Whether a message stamped at `stamp` falls in the window of `window_secs`
/// seconds that ends at `now`: no more than the window has passed since the
/// stamp. A stamp that is not before `now` is in the window.
pub open spec fn is_recent(stamp: u128, now: u128, window_secs: u64) -> bool {
    now <= stamp || now - stamp <= window_secs * NANOS_PER_SECOND
}

/// The messages of `seen` that fall in the window of `window_secs` seconds
/// that ends at `now`.
pub open spec fn recent_messages(seen: Map<(u16, u32), u128>, now: u128, window_secs: u64) -> Set<
    (u16, u32),
> {
    seen.dom().filter(|message: (u16, u32)| is_recent(seen[message], now, window_secs))
}

/// The key under which the pair of an identifier and a nonce is stored.
spec fn pack(message: (u16, u32)) -> u64 {
    (message.0 as int * 0x1_0000_0000 + message.1 as int) as u64
}

/// The pair that a key stands for.
spec fn unpack(key: u64) -> (u16, u32) {
    ((key as int / 0x1_0000_0000) as u16, (key as int % 0x1_0000_0000) as u32)
}

/// Every pair is found again from its key.
proof fn lemma_unpack_pack(message: (u16, u32))
    ensures
        unpack(pack(message)) == message,
        pack(message) < 0x1_0000_0000_0000,
{
}

/// Every key below 2^48 is the key of the pair it stands for.
proof fn lemma_pack_unpack(key: u64)
    requires
        key < 0x1_0000_0000_0000,
    ensures
        pack(unpack(key)) == key,
{
}

/// Computes the key of a pair.
fn pack_key(message_id: u16, nonce: u32) -> (key: u64)
    ensures
        key == pack((message_id, nonce)),
{
    (message_id as u64) * 0x1_0000_0000 + (nonce as u64)
}

/// Computes [`is_recent`].
pub fn in_window(stamp: u128, now: u128, window_secs: u64) -> (recent: bool)
    ensures
        recent == is_recent(stamp, now, window_secs),
{
    now <= stamp || now - stamp <= (window_secs as u128) * NANOS_PER_SECOND
}

/// Keys that all stand for pairs are as many as the pairs they stand for.
proof fn lemma_as_many_messages_as_keys(keys: Set<u64>, messages: Set<(u16, u32)>)
    requires
        keys.finite(),
        forall|key: u64| keys.contains(key) ==> key < 0x1_0000_0000_0000,
        forall|message: (u16, u32)| messages.contains(message) == keys.contains(pack(message)),
    ensures
        messages.finite(),
        messages.len() == keys.len(),
{
    let back = |key: u64| unpack(key);
    assert forall|a: u64, b: u64|
        keys.contains(a) && keys.contains(b) && #[trigger] back(a) == #[trigger] back(b)
        implies a == b by {
        lemma_pack_unpack(a);
        lemma_pack_unpack(b);
    }
    assert forall|message: (u16, u32)| keys.map(back).contains(message) == messages.contains(
        message,
    ) by {
        if messages.contains(message) {
            lemma_unpack_pack(message);
            assert(keys.contains(pack(message)) && back(pack(message)) == message);
        }
        if keys.map(back).contains(message) {
            let key = choose|key: u64| keys.contains(key) && back(key) == message;
            lemma_pack_unpack(key);
        }
    }
    assert(keys.map(back) =~= messages);
    vstd::set_lib::lemma_map_size(keys, messages, back);
}

/// The keys among `keys` whose stamp in `stamps` is recent.
spec fn recent_keys(stamps: Map<u64, u128>, keys: Set<u64>, now: u128, window_secs: u64) -> Set<u64> {
    keys.filter(|key: u64| is_recent(stamps[key], now, window_secs))
}

/// The keys of the first `count` entries that a walk over a map yields.
spec fn walked_keys(entries: Seq<(&u64, &u128)>, count: int) -> Set<u64> {
    Set::new(|key: u64| exists|i: int| 0 <= i < count && *(#[trigger] entries[i]).0 == key)
}

/// Whether `entries` is what a walk over `stamps` yields: every entry of the
/// map, each of them once, in whatever order.
spec fn is_walk_of(entries: Seq<(&u64, &u128)>, stamps: Map<u64, u128>) -> bool {
    &&& entries.no_duplicates()
    &&& forall|i: int|
        0 <= i < entries.len() ==> stamps.contains_key(*(#[trigger] entries[i]).0)
            && stamps[*entries[i].0] == *entries[i].1
    &&& forall|key: u64| #[trigger]
        stamps.contains_key(key) ==> entries.contains((&key, &stamps[key]))
}

/// The entry that a walk yields next has a key that it has not yielded before,
/// and with the last entry every key of the map has been yielded.
proof fn lemma_walk_step(entries: Seq<(&u64, &u128)>, stamps: Map<u64, u128>, count: int)
    requires
        is_walk_of(entries, stamps),
        0 <= count < entries.len(),
    ensures
        !walked_keys(entries, count).contains(*entries[count].0),
        walked_keys(entries, count + 1) == walked_keys(entries, count).insert(*entries[count].0),
        count + 1 == entries.len() ==> walked_keys(entries, count + 1) == stamps.dom(),
{
    let next = *entries[count].0;
    let so_far = walked_keys(entries, count);
    let more = walked_keys(entries, count + 1);
    if so_far.contains(next) {
        let i = choose|i: int| 0 <= i < count && *(#[trigger] entries[i]).0 == next;
        assert(entries[i] == entries[count]);
    }
    assert forall|key: u64| more.contains(key) == so_far.insert(next).contains(key) by {
        if more.contains(key) {
            let i = choose|i: int| 0 <= i < count + 1 && *(#[trigger] entries[i]).0 == key;
            if i < count {
                assert(so_far.contains(key));
            }
        }
        if so_far.contains(key) {
            let i = choose|i: int| 0 <= i < count && *(#[trigger] entries[i]).0 == key;
            assert(0 <= i < count + 1 && *entries[i].0 == key);
        }
        if key == next {
            assert(*entries[count].0 == key);
        }
    }
    assert(more =~= so_far.insert(next));
    if count + 1 == entries.len() {
        assert forall|key: u64| stamps.dom().contains(key) implies more.contains(key) by {
            let i = entries.index_of((&key, &stamps[key]));
            assert(*entries[i].0 == key);
        }
        assert(more =~= stamps.dom());
    }
}

/// The messages seen from one peer, each with the time it was last seen.
#[derive(Debug)]
pub struct SeenMessages {
    stamps: HashMap<u64, u128>,
}

impl View for SeenMessages {
    type V = Map<(u16, u32), u128>;

    /// The time at which each message was last seen.
    closed spec fn view(&self) -> Map<(u16, u32), u128> {
        Map::new(
            |message: (u16, u32)| self.stamps@.contains_key(pack(message)),
            |message: (u16, u32)| self.stamps@[pack(message)],
        )
    }
}

impl SeenMessages {
    /// Every stored key stands for a pair.
    #[verifier::type_invariant]
    spec fn well_formed(&self) -> bool {
        forall|key: u64| self.stamps@.contains_key(key) ==> key < 0x1_0000_0000_0000
    }

    /// A cache that has seen nothing.
    pub fn new() -> (seen: SeenMessages)
        ensures
            seen@ == Map::<(u16, u32), u128>::empty(),
    {
        let seen = SeenMessages { stamps: HashMap::new() };
        assert(seen@ =~= Map::<(u16, u32), u128>::empty());
        seen
    }

    /// The number of messages in the cache.
    pub fn len(&self) -> (count: usize)
        ensures
            self@.dom().finite(),
            count == self@.len(),
    {
        proof {
            use_type_invariant(self);
            lemma_as_many_messages_as_keys(self.stamps@.dom(), self@.dom());
        }
        self.stamps.len()
    }

    /// Records that the message was seen at `now`. A message seen before keeps
    /// its one entry, which from now on holds `now`.
    pub fn insert(&mut self, message_id: u16, nonce: u32, now: u128)
        ensures
            final(self)@ == old(self)@.insert((message_id, nonce), now),
    {
        proof {
            use_type_invariant(&*self);
        }
        let key = pack_key(message_id, nonce);
        let mut taken = SeenMessages { stamps: HashMap::new() };
        core::mem::swap(self, &mut taken);
        let mut stamps = taken.stamps;
        stamps.insert(key, now);
        *self = SeenMessages { stamps };
        proof {
            lemma_unpack_pack((message_id, nonce));
            assert forall|message: (u16, u32)| message != (message_id, nonce) implies pack(message)
                != key by {
                lemma_unpack_pack(message);
            }
            assert(self@ =~= old(self)@.insert((message_id, nonce), now));
        }
    }

    /// Counts the messages that were last seen no more than `window_secs`
    /// seconds before `now`. A message stamped later than `now` counts too.
    pub fn frequency(&self, now: u128, window_secs: u64) -> (count: usize)
        ensures
            self@.dom().finite(),
            count == recent_messages(self@, now, window_secs).len(),
    {
        broadcast use vstd::std_specs::hash::group_hash_axioms;

        proof {
            use_type_invariant(self);
        }
        let mut count: usize = 0;
        let ghost mut walked: Set<u64> = Set::empty();
        assert(self.stamps@.len() == self.stamps.len());
        assert(recent_keys(self.stamps@, walked, now, window_secs) =~= Set::empty());
        for entry in it: self.stamps.iter()
            invariant
                it.seq().len() <= usize::MAX,
                is_walk_of(it.seq(), self.stamps@),
                walked == walked_keys(it.seq(), it.index()),
                walked.finite(),
                it.index() == it.seq().len() ==> walked == self.stamps@.dom(),
                count <= it.index(),
                count == recent_keys(self.stamps@, walked, now, window_secs).len(),
        {
            let (key, stamp) = entry;
            assert({
                &&& !walked.contains(*key)
                &&& walked.insert(*key) == walked_keys(it.seq(), it.index() + 1)
                &&& it.index() + 1 == it.seq().len() ==> walked.insert(*key) == self.stamps@.dom()
            }) by {
                lemma_walk_step(it.seq(), self.stamps@, it.index());
            }
            proof {
                let counted = recent_keys(self.stamps@, walked, now, window_secs);
                let next = recent_keys(self.stamps@, walked.insert(*key), now, window_secs);
                if is_recent(*stamp, now, window_secs) {
                    assert(next =~= counted.insert(*key));
                } else {
                    assert(next =~= counted);
                }
                walked = walked.insert(*key);
            }
            if in_window(*stamp, now, window_secs) {
                count = count + 1;
            }
        }
        proof {
            self.lemma_finite();
            lemma_as_many_messages_as_keys(
                recent_keys(self.stamps@, self.stamps@.dom(), now, window_secs),
                recent_messages(self@, now, window_secs),
            );
        }
        count
    }

    /// Forgets the messages that [`SeenMessages::frequency`] would not count at
    /// `now`, and keeps the others as they are. Nothing grows the cache but
    /// [`SeenMessages::insert`], and nothing else shrinks it.
    pub fn forget_stale(&mut self, now: u128, window_secs: u64)
        ensures
            final(self)@ == old(self)@.restrict(recent_messages(old(self)@, now, window_secs)),
    {
        broadcast use vstd::std_specs::hash::group_hash_axioms;

        proof {
            use_type_invariant(&*self);
        }
        let mut taken = SeenMessages { stamps: HashMap::new() };
        core::mem::swap(self, &mut taken);
        let stamps = taken.stamps;
        let mut kept: HashMap<u64, u128> = HashMap::new();
        let ghost mut walked: Set<u64> = Set::empty();
        assert(kept@ =~= stamps@.restrict(recent_keys(stamps@, walked, now, window_secs)));
        for entry in it: stamps.iter()
            invariant
                is_walk_of(it.seq(), stamps@),
                walked == walked_keys(it.seq(), it.index()),
                it.index() == it.seq().len() ==> walked == stamps@.dom(),
                kept@ == stamps@.restrict(recent_keys(stamps@, walked, now, window_secs)),
        {
            let (key, stamp) = entry;
            assert({
                &&& walked.insert(*key) == walked_keys(it.seq(), it.index() + 1)
                &&& it.index() + 1 == it.seq().len() ==> walked.insert(*key) == stamps@.dom()
            }) by {
                lemma_walk_step(it.seq(), stamps@, it.index());
            }
            if in_window(*stamp, now, window_secs) {
                kept.insert(*key, *stamp);
            }
            proof {
                assert(kept@ =~= stamps@.restrict(
                    recent_keys(stamps@, walked.insert(*key), now, window_secs),
                ));
                walked = walked.insert(*key);
            }
        }
        *self = SeenMessages { stamps: kept };
        proof {
            assert forall|message: (u16, u32)| recent_messages(
                old(self)@,
                now,
                window_secs,
            ).contains(message) implies self@.dom().contains(message) by {
                assert(recent_keys(stamps@, stamps@.dom(), now, window_secs).contains(pack(message)));
            }
            assert(self@ =~= old(self)@.restrict(recent_messages(old(self)@, now, window_secs)));
        }
    }

    /// However many messages a cache holds, they are finitely many.
    pub proof fn lemma_finite(&self)
        ensures
            self@.dom().finite(),
    {
        broadcast use vstd::std_specs::hash::group_hash_axioms;

        let keys = self.stamps@.dom();
        let back = |key: u64| unpack(key);
        keys.lemma_map_finite(back);
        assert forall|message: (u16, u32)| self@.dom().contains(message) implies keys.map(
            back,
        ).contains(message) by {
            lemma_unpack_pack(message);
            assert(keys.contains(pack(message)) && back(pack(message)) == message);
        }
        vstd::set_lib::lemma_set_subset_finite(keys.map(back), self@.dom());
    }
}

/// A message counts as recent at the moment it is recorded, whatever was seen
/// before and however short the window: the count at that moment is at least 1.
pub proof fn law_fresh_message_is_recent(
    seen: Map<(u16, u32), u128>,
    message: (u16, u32),
    now: u128,
    window_secs: u64,
)
    requires
        seen.dom().finite(),
    ensures
        recent_messages(seen.insert(message, now), now, window_secs).contains(message),
        recent_messages(seen.insert(message, now), now, window_secs).len() >= 1,
{
    law_recording_counts_once(seen, message, now, window_secs);
}

/// Recording a message at `now` puts it in the window that ends at `now` and
/// moves no other message in or out. The count at `now` grows by one where the
/// message was not counted before, because it was not in the cache or had left
/// the window, and stays as it was where the message was counted already.
pub proof fn law_recording_counts_once(
    seen: Map<(u16, u32), u128>,
    message: (u16, u32),
    now: u128,
    window_secs: u64,
)
    requires
        seen.dom().finite(),
    ensures
        recent_messages(seen.insert(message, now), now, window_secs) == recent_messages(
            seen,
            now,
            window_secs,
        ).insert(message),
        recent_messages(seen, now, window_secs).contains(message) ==> recent_messages(
            seen.insert(message, now),
            now,
            window_secs,
        ).len() == recent_messages(seen, now, window_secs).len(),
        !recent_messages(seen, now, window_secs).contains(message) ==> recent_messages(
            seen.insert(message, now),
            now,
            window_secs,
        ).len() == recent_messages(seen, now, window_secs).len() + 1,
{
    let before = recent_messages(seen, now, window_secs);
    let after = recent_messages(seen.insert(message, now), now, window_secs);
    seen.dom().lemma_len_filter(|other: (u16, u32)| is_recent(seen[other], now, window_secs));
    assert(after =~= before.insert(message));
}

/// Once more than the window has passed since every message was last seen, and
/// nothing was recorded meanwhile, no message counts as recent.
pub proof fn law_nothing_recent_after_window(
    seen: Map<(u16, u32), u128>,
    later: u128,
    window_secs: u64,
)
    requires
        forall|message: (u16, u32)| #[trigger]
            seen.dom().contains(message) ==> seen[message] + window_secs * NANOS_PER_SECOND
                < later,
    ensures
        recent_messages(seen, later, window_secs) == Set::<(u16, u32)>::empty(),
        recent_messages(seen, later, window_secs).len() == 0,
{
    assert(recent_messages(seen, later, window_secs) =~= Set::<(u16, u32)>::empty());
}

/// While nothing is recorded no message enters the window: whatever is recent at
/// a later time was recent at the earlier one, so the count never rises as time
/// passes.
pub proof fn law_count_never_rises(
    seen: Map<(u16, u32), u128>,
    earlier: u128,
    later: u128,
    window_secs: u64,
)
    requires
        seen.dom().finite(),
        earlier <= later,
    ensures
        recent_messages(seen, later, window_secs).subset_of(
            recent_messages(seen, earlier, window_secs),
        ),
        recent_messages(seen, later, window_secs).len() <= recent_messages(
            seen,
            earlier,
            window_secs,
        ).len(),
{
    let first = recent_messages(seen, earlier, window_secs);
    let second = recent_messages(seen, later, window_secs);
    seen.dom().lemma_len_filter(|other: (u16, u32)| is_recent(seen[other], earlier, window_secs));
    assert(second.subset_of(first));
    vstd::set_lib::lemma_len_subset(second, first);
}

/// Forgetting the messages that are stale at `now` changes no count taken at
/// `now` or later: a message that has left the window does not come back.
pub proof fn law_forgetting_keeps_every_later_count(
    seen: Map<(u16, u32), u128>,
    now: u128,
    later: u128,
    window_secs: u64,
)
    requires
        now <= later,
    ensures
        recent_messages(seen.restrict(recent_messages(seen, now, window_secs)), later, window_secs)
            == recent_messages(seen, later, window_secs),
{
    let kept = seen.restrict(recent_messages(seen, now, window_secs));
    assert(recent_messages(kept, later, window_secs) =~= recent_messages(seen, later, window_secs));
}

/// Recording again a message that is still in the window changes neither the
/// number of entries nor the count: the message keeps its one entry and was
/// counted already.
pub proof fn law_recording_again_keeps_size_and_count(
    seen: Map<(u16, u32), u128>,
    message: (u16, u32),
    now: u128,
    window_secs: u64,
)
    requires
        seen.dom().finite(),
        seen.dom().contains(message),
        is_recent(seen[message], now, window_secs),
    ensures
        seen.insert(message, now).dom() == seen.dom(),
        seen.insert(message, now).len() == seen.len(),
        recent_messages(seen.insert(message, now), now, window_secs) == recent_messages(
            seen,
            now,
            window_secs,
        ),
{
    law_recording_counts_once(seen, message, now, window_secs);
    assert(seen.insert(message, now).dom() =~= seen.dom());
    assert(recent_messages(seen, now, window_secs).insert(message) =~= recent_messages(
        seen,
        now,
        window_secs,
    ));
}

/// Recording a message that is in the cache already adds no entry: the cache
/// holds the same messages as before, as many as before, and the message now
/// bears the stamp it was given last.
pub proof fn law_same_message_one_entry(
    seen: Map<(u16, u32), u128>,
    message: (u16, u32),
    first: u128,
    second: u128,
)
    ensures
        seen.insert(message, first).insert(message, second).dom() == seen.insert(
            message,
            first,
        ).dom(),
        seen.insert(message, first).insert(message, second).len() == seen.insert(
            message,
            first,
        ).len(),
        seen.insert(message, first).insert(message, second)[message] == second,
        seen.insert(message, first).insert(message, second) == seen.insert(message, second),
{
    let once = seen.insert(message, first);
    let twice = once.insert(message, second);
    assert(twice.dom() =~= once.dom());
    assert(twice =~= seen.insert(message, second));
}

/// Recording a message that is not in the cache yet adds exactly one entry and
/// leaves every other message with the stamp it had.
pub proof fn law_new_message_one_more_entry(
    seen: Map<(u16, u32), u128>,
    message: (u16, u32),
    now: u128,
)
    requires
        seen.dom().finite(),
        !seen.dom().contains(message),
    ensures
        seen.insert(message, now).len() == seen.len() + 1,
        forall|other: (u16, u32)| #[trigger]
            seen.dom().contains(other) ==> seen.insert(message, now)[other] == seen[other],
{
}

} // verus!
