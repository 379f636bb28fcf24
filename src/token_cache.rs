use vstd::prelude::*;

use crate::error::{AppError, AppResult};

verus! {

/// The largest time to live, in seconds, that the cache accepts.
pub const MAX_TTL: u64 = 9223372036854775807;

/// The reply of `ttl` for a key that is not in the cache.
pub const TTL_ABSENT: i64 = -2;

/// The reply of `ttl` for a key that never expires.
pub const TTL_PERMANENT: i64 = -1;

/// One stored entry: key, value text and remaining seconds to live.
struct Slot {
    key: String,
    value: String,
    ttl: u64,
}

/// A key/value store of texts in which every entry expires.
///
/// Its model maps each present key to its value and its remaining time to live.
pub struct MemoryTokenCache {
    slots: Vec<Slot>,
    model: Ghost<Map<Seq<char>, (Seq<char>, u64)>>,
}

/// What the cache reports as the remaining seconds of `key`.
pub open spec fn ttl_reply(m: Map<Seq<char>, (Seq<char>, u64)>, key: Seq<char>) -> i64 {
    if m.contains_key(key) {
        m[key].1 as i64
    } else {
        TTL_ABSENT
    }
}

/// Every entry of the model lives for at least one second and at most `MAX_TTL`.
pub open spec fn ttls_in_range(m: Map<Seq<char>, (Seq<char>, u64)>) -> bool {
    forall|k: Seq<char>| #[trigger] m.contains_key(k) ==> 0 < m[k].1 <= MAX_TTL
}

/// The model after `elapsed` seconds: entries that run out are gone, the others
/// have that much less time left.
pub open spec fn aged(m: Map<Seq<char>, (Seq<char>, u64)>, elapsed: u64) -> Map<
    Seq<char>,
    (Seq<char>, u64),
> {
    Map::new(
        |k: Seq<char>| m.contains_key(k) && m[k].1 > elapsed,
        |k: Seq<char>| (m[k].0, (m[k].1 - elapsed) as u64),
    )
}

impl View for MemoryTokenCache {
    type V = Map<Seq<char>, (Seq<char>, u64)>;

    closed spec fn view(&self) -> Self::V {
        self.model@
    }
}

impl MemoryTokenCache {
    /// The slots hold exactly the model, one slot per key.
    pub closed spec fn wf(&self) -> bool {
        &&& forall|i: int|
            0 <= i < self.slots@.len() ==> {
                &&& self.model@.contains_key(#[trigger] self.slots@[i].key@)
                &&& self.model@[self.slots@[i].key@] == (
                    self.slots@[i].value@,
                    self.slots@[i].ttl,
                )
            }
        &&& forall|k: Seq<char>|
            #[trigger] self.model@.contains_key(k) ==> exists|i: int|
                0 <= i < self.slots@.len() && #[trigger] self.slots@[i].key@ == k
        &&& forall|i: int, j: int|
            0 <= i < j < self.slots@.len() ==> #[trigger] self.slots@[i].key@
                != #[trigger] self.slots@[j].key@
        &&& ttls_in_range(self.model@)
    }

    pub fn new() -> (r: MemoryTokenCache)
        ensures
            r.wf(),
            r@ == Map::<Seq<char>, (Seq<char>, u64)>::empty(),
    {
        MemoryTokenCache { slots: Vec::new(), model: Ghost(Map::empty()) }
    }

    /// The position of the slot of `key`, if the key is present.
    fn find(&self, key: &String) -> (r: Option<usize>)
        requires
            self.wf(),
        ensures
            match r {
                Some(i) => i < self.slots@.len() && self.slots@[i as int].key@ == key@,
                None => !self@.contains_key(key@),
            },
    {
        let mut i: usize = 0;
        while i < self.slots.len()
            invariant
                i <= self.slots@.len(),
                forall|j: int| 0 <= j < i ==> self.slots@[j].key@ != key@,
            decreases self.slots@.len() - i,
        {
            if self.slots[i].key == *key {
                return Some(i);
            }
            i = i + 1;
        }
        proof {
            if self@.contains_key(key@) {
                let w = choose|w: int| 0 <= w < self.slots@.len() && self.slots@[w].key@ == key@;
                assert(self.slots@[w].key@ == key@);
            }
        }
        None
    }

    /// Stores `value` under `key` for `ttl` seconds, replacing any entry of that
    /// key and its time to live. A time to live of zero, or above `MAX_TTL`, is refused.
    pub fn set_ex(&mut self, key: String, value: String, ttl: u64) -> (r: AppResult<()>)
        requires
            old(self).wf(),
        ensures
            final(self).wf(),
            r is Ok <==> 0 < ttl <= MAX_TTL,
            r is Ok ==> final(self)@ == old(self)@.insert(key@, (value@, ttl)),
            r matches Err(e) ==> final(self)@ == old(self)@ && e is KeyValueStoreError,
    {
        if ttl == 0 || ttl > MAX_TTL {
            return Err(AppError::KeyValueStoreError("invalid expire time".to_string()));
        }
        let ghost old_model = self.model@;
        let ghost old_slots = self.slots@;
        let ghost kv = key@;
        let ghost entry = (value@, ttl);
        match self.find(&key) {
            Some(i) => {
                self.slots[i] = Slot { key, value, ttl };
                self.model = Ghost(old_model.insert(kv, entry));
                assert forall|k: Seq<char>| #[trigger] self.model@.contains_key(k) implies exists|
                    j: int,
                | 0 <= j < self.slots@.len() && #[trigger] self.slots@[j].key@ == k by {
                    if k != kv {
                        let w = choose|w: int|
                            0 <= w < old_slots.len() && old_slots[w].key@ == k;
                        assert(self.slots@[w].key@ == k);
                    } else {
                        assert(self.slots@[i as int].key@ == k);
                    }
                }
            },
            None => {
                self.slots.push(Slot { key, value, ttl });
                self.model = Ghost(old_model.insert(kv, entry));
                assert forall|k: Seq<char>| #[trigger] self.model@.contains_key(k) implies exists|
                    j: int,
                | 0 <= j < self.slots@.len() && #[trigger] self.slots@[j].key@ == k by {
                    if k != kv {
                        let w = choose|w: int|
                            0 <= w < old_slots.len() && old_slots[w].key@ == k;
                        assert(self.slots@[w].key@ == k);
                    } else {
                        assert(self.slots@[old_slots.len() as int].key@ == k);
                    }
                }
            },
        }
        Ok(())
    }

    /// The value stored under `key`, if the key is present.
    pub fn get(&self, key: &String) -> (r: Option<String>)
        requires
            self.wf(),
        ensures
            match r {
                Some(v) => self@.contains_key(key@) && v@ == self@[key@].0,
                None => !self@.contains_key(key@),
            },
    {
        match self.find(key) {
            Some(i) => Some(self.slots[i].value.clone()),
            None => None,
        }
    }

    /// The remaining seconds of `key`, or `TTL_ABSENT` where the key is not present.
    pub fn ttl(&self, key: &String) -> (r: i64)
        requires
            self.wf(),
        ensures
            r == ttl_reply(self@, key@),
            self@.contains_key(key@) ==> r > 0,
    {
        match self.find(key) {
            Some(i) => self.slots[i].ttl as i64,
            None => TTL_ABSENT,
        }
    }

    /// Removes the entry of `key`; the number of entries removed, 0 or 1.
    pub fn delete(&mut self, key: &String) -> (r: i64)
        requires
            old(self).wf(),
        ensures
            final(self).wf(),
            final(self)@ == old(self)@.remove(key@),
            r == (if old(self)@.contains_key(key@) { 1i64 } else { 0i64 }),
    {
        let ghost old_model = self.model@;
        let ghost old_slots = self.slots@;
        match self.find(key) {
            Some(i) => {
                self.slots.remove(i);
                self.model = Ghost(old_model.remove(key@));
                assert forall|a: int, b: int|
                    0 <= a < b < self.slots@.len() implies #[trigger] self.slots@[a].key@
                    != #[trigger] self.slots@[b].key@ by {
                    let oa = if a < i { a } else { a + 1 };
                    let ob = if b < i { b } else { b + 1 };
                    assert(self.slots@[a] == old_slots[oa]);
                    assert(self.slots@[b] == old_slots[ob]);
                }
                assert forall|j: int| 0 <= j < self.slots@.len() implies {
                    &&& self.model@.contains_key(#[trigger] self.slots@[j].key@)
                    &&& self.model@[self.slots@[j].key@] == (
                        self.slots@[j].value@,
                        self.slots@[j].ttl,
                    )
                } by {
                    let oj = if j < i { j } else { j + 1 };
                    assert(self.slots@[j] == old_slots[oj]);
                    assert(old_slots[i as int].key@ == key@);
                }
                assert forall|k: Seq<char>| #[trigger] self.model@.contains_key(k) implies exists|
                    j: int,
                | 0 <= j < self.slots@.len() && #[trigger] self.slots@[j].key@ == k by {
                    let w = choose|w: int| 0 <= w < old_slots.len() && old_slots[w].key@ == k;
                    if w < i {
                        assert(self.slots@[w] == old_slots[w]);
                    } else {
                        assert(w != i);
                        assert(self.slots@[w - 1] == old_slots[w]);
                    }
                }
                1
            },
            None => {
                assert(self.model@ =~= old_model.remove(key@));
                0
            },
        }
    }

    /// Lets `elapsed` seconds pass: entries whose time runs out are removed, the
    /// others have that much less time left.
    pub fn expire(&mut self, elapsed: u64)
        requires
            old(self).wf(),
        ensures
            final(self).wf(),
            final(self)@ == aged(old(self)@, elapsed),
    {
        let ghost target = aged(self.model@, elapsed);
        let ghost old_model = self.model@;
        let mut kept: Vec<Slot> = Vec::new();
        let ghost mut src: Seq<int> = Seq::empty();
        let mut i: usize = 0;
        while i < self.slots.len()
            invariant
                self.wf(),
                self.model@ == old_model,
                i <= self.slots@.len(),
                src.len() == kept@.len(),
                forall|m: int| 0 <= m < src.len() ==> 0 <= #[trigger] src[m] < i,
                forall|a: int, b: int| 0 <= a < b < src.len() ==> #[trigger] src[a] < #[trigger] src[b],
                forall|m: int|
                    0 <= m < kept@.len() ==> {
                        &&& #[trigger] kept@[m].key@ == self.slots@[src[m]].key@
                        &&& kept@[m].value@ == self.slots@[src[m]].value@
                        &&& self.slots@[src[m]].ttl > elapsed
                        &&& kept@[m].ttl == self.slots@[src[m]].ttl - elapsed
                    },
                forall|j: int|
                    0 <= j < i && #[trigger] self.slots@[j].ttl > elapsed ==> exists|m: int|
                        0 <= m < src.len() && #[trigger] src[m] == j,
            decreases self.slots@.len() - i,
        {
            let slot = &self.slots[i];
            if slot.ttl > elapsed {
                kept.push(Slot { key: slot.key.clone(), value: slot.value.clone(), ttl: slot.ttl - elapsed });
                proof {
                    let old_src = src;
                    src = src.push(i as int);
                    assert forall|j: int|
                        0 <= j < i + 1 && #[trigger] self.slots@[j].ttl > elapsed implies exists|m: int|
                            0 <= m < src.len() && #[trigger] src[m] == j by {
                        if j < i {
                            let m = choose|m: int| 0 <= m < old_src.len() && old_src[m] == j;
                            assert(src[m] == j);
                        } else {
                            assert(src[old_src.len() as int] == j);
                        }
                    }
                }
            }
            i = i + 1;
        }
        let ghost old_slots = self.slots@;
        self.slots = kept;
        self.model = Ghost(target);
        assert forall|m: int| 0 <= m < self.slots@.len() implies {
            &&& self.model@.contains_key(#[trigger] self.slots@[m].key@)
            &&& self.model@[self.slots@[m].key@] == (self.slots@[m].value@, self.slots@[m].ttl)
        } by {
            assert(old_model.contains_key(old_slots[src[m]].key@));
        }
        assert forall|k: Seq<char>| #[trigger] self.model@.contains_key(k) implies exists|j: int|
            0 <= j < self.slots@.len() && #[trigger] self.slots@[j].key@ == k by {
            let w = choose|w: int| 0 <= w < old_slots.len() && old_slots[w].key@ == k;
            assert(old_slots[w].ttl > elapsed);
            let m = choose|m: int| 0 <= m < src.len() && src[m] == w;
            assert(self.slots@[m].key@ == k);
        }
        assert forall|a: int, b: int|
            0 <= a < b < self.slots@.len() implies #[trigger] self.slots@[a].key@
            != #[trigger] self.slots@[b].key@ by {
            assert(src[a] < src[b]);
        }
    }
}

} // verus!
