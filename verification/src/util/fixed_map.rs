//! A table of fixed capacity from descriptors to descriptors.
//!
//! The table never allocates after it is made, so a lookup is safe where
//! allocation is not. It is an array of buckets, each an array of slots; a
//! key lives in the bucket that its remainder by the number of buckets
//! names.

use vstd::prelude::*;

verus! {

/// The key that marks a slot as empty. No descriptor is negative, so no
/// descriptor is mistaken for it.
pub const EMPTY_KEY: i32 = -1;

/// One slot of a bucket.
#[derive(Clone, Copy, Debug, PartialEq, Eq, Structural)]
pub struct FixedMapBucketEntry {
    /// The key of the slot, or `EMPTY_KEY`.
    pub key: i32,
    /// The value of the slot; 0 in an empty slot.
    pub value: i32,
}

/// Whether `key` is in the first `used` slots of `slots`.
pub open spec fn slots_hold(slots: Seq<FixedMapBucketEntry>, used: int, key: i32) -> bool {
    exists|i: int| 0 <= i < used && i < slots.len() && (#[trigger] slots[i]).key == key
}

/// The value that the first `used` slots of `slots` give to `key`.
pub open spec fn slots_value(slots: Seq<FixedMapBucketEntry>, used: int, key: i32) -> i32 {
    let i = choose|i: int| 0 <= i < used && i < slots.len() && (#[trigger] slots[i]).key == key;
    slots[i].value
}

/// Whether one of `slots` is empty.
pub open spec fn slots_have_room(slots: Seq<FixedMapBucketEntry>) -> bool {
    exists|i: int| 0 <= i < slots.len() && (#[trigger] slots[i]).key == EMPTY_KEY
}

/// The number of `slots` that are not empty.
pub open spec fn slots_filled(slots: Seq<FixedMapBucketEntry>) -> nat
    decreases slots.len(),
{
    if slots.len() == 0 {
        0
    } else {
        slots_filled(slots.drop_last()) + (if slots.last().key != EMPTY_KEY {
            1nat
        } else {
            0nat
        })
    }
}

/// No more slots are filled than there are, and all of them are filled
/// exactly when none of them is empty.
pub proof fn lemma_filled_bound(slots: Seq<FixedMapBucketEntry>)
    ensures
        slots_filled(slots) <= slots.len(),
        slots_filled(slots) == slots.len() <==> !slots_have_room(slots),
    decreases slots.len(),
{
    if slots.len() > 0 {
        let front = slots.drop_last();
        lemma_filled_bound(front);
        if slots_have_room(slots) {
            let i = choose|i: int| 0 <= i < slots.len() && (#[trigger] slots[i]).key == EMPTY_KEY;
            if i < front.len() {
                assert(front[i].key == EMPTY_KEY);
            }
        }
        if slots_have_room(front) {
            let i = choose|i: int| 0 <= i < front.len() && (#[trigger] front[i]).key == EMPTY_KEY;
            assert(slots[i].key == EMPTY_KEY);
        }
        if slots.last().key == EMPTY_KEY {
            assert(slots[slots.len() - 1].key == EMPTY_KEY);
        }
    }
}

/// Writing one slot changes the number of filled slots by what the slot
/// was and what it becomes.
pub proof fn lemma_filled_update(
    slots: Seq<FixedMapBucketEntry>,
    at: int,
    entry: FixedMapBucketEntry,
)
    requires
        0 <= at < slots.len(),
    ensures
        slots_filled(slots.update(at, entry)) + (if slots[at].key != EMPTY_KEY {
            1nat
        } else {
            0nat
        }) == slots_filled(slots) + (if entry.key != EMPTY_KEY {
            1nat
        } else {
            0nat
        }),
    decreases slots.len(),
{
    let front = slots.drop_last();
    if at == slots.len() - 1 {
        assert(slots.update(at, entry).drop_last() =~= front);
    } else {
        lemma_filled_update(front, at, entry);
        assert(slots.update(at, entry).drop_last() =~= front.update(at, entry));
    }
}

/// One bucket: a fixed number of slots, of which the first `length` are in
/// use. A slot in use may have been emptied again; the slots after the
/// first `length` are all empty.
#[derive(Debug)]
pub struct FixedMapBucket {
    values_vec: Vec<FixedMapBucketEntry>,
    length: usize,
}

impl FixedMapBucket {
    /// The slots of the bucket.
    pub closed spec fn slots(&self) -> Seq<FixedMapBucketEntry> {
        self.values_vec@
    }

    /// The number of leading slots that are in use.
    pub closed spec fn used(&self) -> int {
        self.length as int
    }

    /// Whether the bucket is in order: the slots in use are within the
    /// bucket, every slot after them is empty, no slot holds a key below
    /// the empty key, and no key stands in two slots.
    pub open spec fn wf(&self) -> bool {
        &&& 0 <= self.used() <= self.slots().len()
        &&& forall|i: int|
            self.used() <= i < self.slots().len() ==> (#[trigger] self.slots()[i]).key
                == EMPTY_KEY
        &&& forall|i: int|
            0 <= i < self.slots().len() ==> (#[trigger] self.slots()[i]).key >= EMPTY_KEY
        &&& forall|i: int, j: int|
            0 <= i < self.used() && 0 <= j < self.used() && (#[trigger] self.slots()[i]).key == (
            #[trigger] self.slots()[j]).key && self.slots()[i].key != EMPTY_KEY ==> i == j
    }

    /// Whether the bucket holds `key`.
    pub open spec fn holds(&self, key: i32) -> bool {
        key != EMPTY_KEY && slots_hold(self.slots(), self.used(), key)
    }

    /// The value that the bucket gives to `key`, where it holds `key`.
    pub open spec fn value_of(&self, key: i32) -> i32 {
        slots_value(self.slots(), self.used(), key)
    }

    /// Whether the bucket can take `key`: it holds `key` already, or one of
    /// its slots is empty.
    pub open spec fn has_room(&self, key: i32) -> bool {
        self.holds(key) || slots_have_room(self.slots())
    }

    /// The number of keys that the bucket holds.
    pub open spec fn filled(&self) -> nat {
        slots_filled(self.slots())
    }

    /// A bucket of `bucket_size` empty slots.
    pub fn new(bucket_size: usize) -> (bucket: FixedMapBucket)
        ensures
            bucket.wf(),
            bucket.slots().len() == bucket_size,
            bucket.used() == 0,
            bucket.filled() == 0,
            forall|key: i32| !bucket.holds(key),
            bucket_size > 0 ==> forall|key: i32| bucket.has_room(key),
    {
        let mut values_vec: Vec<FixedMapBucketEntry> = Vec::new();
        let mut i: usize = 0;
        while i < bucket_size
            invariant
                i <= bucket_size,
                values_vec@.len() == i,
                slots_filled(values_vec@) == 0,
                forall|j: int| 0 <= j < i ==> (#[trigger] values_vec@[j]).key == EMPTY_KEY,
            decreases bucket_size - i,
        {
            let ghost before = values_vec@;
            values_vec.push(FixedMapBucketEntry { key: EMPTY_KEY, value: 0 });
            i += 1;
            assert(values_vec@.drop_last() =~= before);
        }
        let bucket = FixedMapBucket { values_vec, length: 0 };
        assert(bucket_size > 0 ==> bucket.slots()[0].key == EMPTY_KEY);
        bucket
    }

    /// Whether the bucket can take `key`.
    pub fn can_insert(&self, key: i32) -> (room: bool)
        requires
            self.wf(),
            key != EMPTY_KEY,
        ensures
            room == self.has_room(key),
    {
        if self.length < self.values_vec.len() {
            assert(self.slots()[self.used()].key == EMPTY_KEY);
            return true;
        }
        let mut i: usize = 0;
        while i < self.length
            invariant
                i <= self.length,
                self.length == self.values_vec@.len(),
                forall|j: int|
                    0 <= j < i ==> (#[trigger] self.values_vec@[j]).key != key
                        && self.values_vec@[j].key != EMPTY_KEY,
            decreases self.length - i,
        {
            let entry_key: i32 = self.values_vec[i].key;
            if entry_key == key || entry_key == EMPTY_KEY {
                return true;
            }
            i += 1;
        }
        false
    }

    /// The value that the bucket gives to `key`, where it holds `key`.
    pub fn get(&self, key: i32) -> (value: Option<i32>)
        requires
            self.wf(),
            key != EMPTY_KEY,
        ensures
            value == (if self.holds(key) {
                Some(self.value_of(key))
            } else {
                None::<i32>
            }),
    {
        let mut i: usize = 0;
        while i < self.length
            invariant
                i <= self.length,
                self.wf(),
                key != EMPTY_KEY,
                forall|j: int| 0 <= j < i ==> (#[trigger] self.values_vec@[j]).key != key,
            decreases self.length - i,
        {
            if self.values_vec[i].key == key {
                proof {
                    self.lemma_value_at(i as int);
                }
                return Some(self.values_vec[i].value);
            }
            i += 1;
        }
        None
    }

    /// The value of a key is the value of the one slot in use that holds it.
    pub proof fn lemma_value_at(&self, i: int)
        requires
            self.wf(),
            0 <= i < self.used(),
            self.slots()[i].key != EMPTY_KEY,
        ensures
            self.holds(self.slots()[i].key),
            self.value_of(self.slots()[i].key) == self.slots()[i].value,
    {
        let key = self.slots()[i].key;
        let j = choose|j: int|
            0 <= j < self.used() && j < self.slots().len() && (#[trigger] self.slots()[j]).key
                == key;
        assert(i == j);
    }

    /// Gives `key` the value `value`: in the slot that holds `key` already,
    /// else in the first empty slot.
    pub fn insert(&mut self, key: i32, value: i32)
        requires
            old(self).wf(),
            key > EMPTY_KEY,
            old(self).has_room(key),
        ensures
            final(self).wf(),
            final(self).slots().len() == old(self).slots().len(),
            final(self).holds(key),
            final(self).value_of(key) == value,
            forall|other: i32|
                other != key ==> final(self).holds(other) == old(self).holds(other),
            forall|other: i32|
                other != key && old(self).holds(other) ==> final(self).value_of(other)
                    == old(self).value_of(other),
            final(self).filled() == old(self).filled() + (if old(self).holds(key) {
                0nat
            } else {
                1nat
            }),
    {
        let length: usize = self.length;
        let mut first_empty: usize = length;
        let mut i: usize = 0;
        while i < length
            invariant
                i <= length,
                length == self.length,
                *self == *old(self),
                self.wf(),
                key > EMPTY_KEY,
                first_empty <= length,
                forall|j: int| 0 <= j < i ==> (#[trigger] self.values_vec@[j]).key != key,
                first_empty == length ==> forall|j: int|
                    0 <= j < i ==> (#[trigger] self.values_vec@[j]).key != EMPTY_KEY,
                first_empty < length ==> first_empty < i && self.values_vec@[first_empty as int].key
                    == EMPTY_KEY,
            decreases length - i,
        {
            let entry_key: i32 = self.values_vec[i].key;
            if entry_key == key {
                self.values_vec.set(i, FixedMapBucketEntry { key, value });
                proof {
                    self.lemma_after_write(*old(self), i as int, key, value);
                }
                return;
            }
            if entry_key == EMPTY_KEY && first_empty == length {
                first_empty = i;
            }
            i += 1;
        }
        if first_empty == length {
            let capacity: usize = self.values_vec.len();
            assert(length < capacity) by {
                if length == self.values_vec@.len() {
                    assert(!slots_have_room(self.slots()));
                    assert(!self.holds(key));
                }
            }
            self.values_vec.set(first_empty, FixedMapBucketEntry { key, value });
            self.length = length + 1;
        } else {
            self.values_vec.set(first_empty, FixedMapBucketEntry { key, value });
        }
        proof {
            self.lemma_after_write(*old(self), first_empty as int, key, value);
        }
    }

    /// What a bucket is after `key` and `value` were written to the slot
    /// `at` of the bucket `before`, where that slot held `key` or was empty
    /// and no other slot in use held `key`.
    proof fn lemma_after_write(&self, before: FixedMapBucket, at: int, key: i32, value: i32)
        requires
            before.wf(),
            key > EMPTY_KEY,
            0 <= at < before.slots().len(),
            at <= before.used(),
            before.slots()[at].key == key || before.slots()[at].key == EMPTY_KEY,
            forall|j: int|
                0 <= j < before.used() && j != at ==> (#[trigger] before.slots()[j]).key != key,
            self.slots() == before.slots().update(at, FixedMapBucketEntry { key, value }),
            self.used() == (if at == before.used() {
                before.used() + 1
            } else {
                before.used()
            }),
        ensures
            self.wf(),
            self.holds(key),
            self.value_of(key) == value,
            forall|other: i32|
                other != key ==> self.holds(other) == before.holds(other) && (before.holds(other)
                    ==> self.value_of(other) == before.value_of(other)),
            self.filled() == before.filled() + (if before.holds(key) {
                0nat
            } else {
                1nat
            }),
    {
        assert(self.slots()[at].key == key);
        self.lemma_value_at(at);
        lemma_filled_update(before.slots(), at, FixedMapBucketEntry { key, value });
        if before.slots()[at].key == key {
            assert(at < before.used());
            assert(before.holds(key));
        } else {
            if before.holds(key) {
                let j = choose|j: int|
                    0 <= j < before.used() && j < before.slots().len() && (
                    #[trigger] before.slots()[j]).key == key;
                assert(j != at);
            }
        }
        assert forall|other: i32| other != key implies self.holds(other) == before.holds(other)
            && (before.holds(other) ==> self.value_of(other) == before.value_of(other)) by {
            if before.holds(other) {
                let j = choose|j: int|
                    0 <= j < before.used() && j < before.slots().len() && (
                    #[trigger] before.slots()[j]).key == other;
                assert(j != at);
                assert(self.slots()[j] == before.slots()[j]);
                before.lemma_value_at(j);
                self.lemma_value_at(j);
            }
            if self.holds(other) {
                let j = choose|j: int|
                    0 <= j < self.used() && j < self.slots().len() && (
                    #[trigger] self.slots()[j]).key == other;
                assert(j != at);
                assert(self.slots()[j] == before.slots()[j]);
                assert(j < before.used());
            }
        }
    }

    /// Takes `key` out of the bucket, where the bucket holds it. When the
    /// last slot in use is emptied, the emptied slots at the end go out of
    /// use.
    pub fn remove(&mut self, key: i32)
        requires
            old(self).wf(),
            key > EMPTY_KEY,
        ensures
            final(self).wf(),
            final(self).slots().len() == old(self).slots().len(),
            !final(self).holds(key),
            forall|other: i32|
                other != key ==> final(self).holds(other) == old(self).holds(other),
            forall|other: i32|
                other != key && old(self).holds(other) ==> final(self).value_of(other)
                    == old(self).value_of(other),
            old(self).holds(key) ==> forall|other: i32| final(self).has_room(other),
            forall|other: i32| old(self).has_room(other) ==> final(self).has_room(other),
            final(self).filled() + (if old(self).holds(key) {
                1nat
            } else {
                0nat
            }) == old(self).filled(),
    {
        let length: usize = self.length;
        let mut i: usize = 0;
        while i < length
            invariant
                i <= length,
                length == self.length,
                *self == *old(self),
                self.wf(),
                key > EMPTY_KEY,
                forall|j: int| 0 <= j < i ==> (#[trigger] self.values_vec@[j]).key != key,
            decreases length - i,
        {
            if self.values_vec[i].key == key {
                self.values_vec.set(i, FixedMapBucketEntry { key: EMPTY_KEY, value: 0 });
                if i == length - 1 {
                    let mut to_decrease: usize = 1;
                    while to_decrease < length && self.values_vec[i - to_decrease].key == EMPTY_KEY
                        invariant
                            1 <= to_decrease <= length,
                            i == length - 1,
                            length <= self.values_vec@.len(),
                            forall|j: int|
                                length - to_decrease <= j < length ==> (
                                #[trigger] self.values_vec@[j]).key == EMPTY_KEY,
                        decreases length - to_decrease,
                    {
                        to_decrease += 1;
                    }
                    self.length = length - to_decrease;
                }
                proof {
                    self.lemma_after_erase(*old(self), i as int, key);
                }
                return;
            }
            i += 1;
        }
        assert(!self.holds(key));
    }

    /// What a bucket is after the slot `at` of the bucket `before`, which
    /// held `key`, was emptied, and emptied slots at the end went out of
    /// use.
    proof fn lemma_after_erase(&self, before: FixedMapBucket, at: int, key: i32)
        requires
            before.wf(),
            key > EMPTY_KEY,
            0 <= at < before.used(),
            before.slots()[at].key == key,
            self.slots() == before.slots().update(
                at,
                FixedMapBucketEntry { key: EMPTY_KEY, value: 0 },
            ),
            0 <= self.used() <= before.used(),
            forall|j: int| self.used() <= j < before.used() ==> (#[trigger] self.slots()[j]).key
                == EMPTY_KEY,
        ensures
            self.wf(),
            !self.holds(key),
            before.holds(key),
            self.filled() + 1 == before.filled(),
            forall|other: i32| self.has_room(other),
            forall|other: i32|
                other != key ==> self.holds(other) == before.holds(other) && (before.holds(other)
                    ==> self.value_of(other) == before.value_of(other)),
    {
        assert(self.slots()[at].key == EMPTY_KEY);
        lemma_filled_update(
            before.slots(),
            at,
            FixedMapBucketEntry { key: EMPTY_KEY, value: 0 },
        );
        assert forall|j: int| 0 <= j < self.used() implies (#[trigger] self.slots()[j]).key
            != key by {
            if j != at {
                assert(self.slots()[j] == before.slots()[j]);
            }
        }
        assert forall|other: i32| other != key implies self.holds(other) == before.holds(other)
            && (before.holds(other) ==> self.value_of(other) == before.value_of(other)) by {
            if before.holds(other) {
                let j = choose|j: int|
                    0 <= j < before.used() && j < before.slots().len() && (
                    #[trigger] before.slots()[j]).key == other;
                assert(j != at);
                assert(self.slots()[j] == before.slots()[j]);
                assert(j < self.used());
                before.lemma_value_at(j);
                self.lemma_value_at(j);
            }
            if self.holds(other) {
                let j = choose|j: int|
                    0 <= j < self.used() && j < self.slots().len() && (
                    #[trigger] self.slots()[j]).key == other;
                assert(j != at);
                assert(self.slots()[j] == before.slots()[j]);
            }
        }
    }
}

/// A table of fixed capacity from descriptors to descriptors. Its view is
/// the map that it holds.
#[derive(Debug)]
pub struct FixedMap {
    buckets_vec: Vec<FixedMapBucket>,
    bucket_count: usize,
    bucket_size: usize,
}

impl View for FixedMap {
    type V = Map<i32, i32>;

    closed spec fn view(&self) -> Map<i32, i32> {
        Map::new(
            |key: i32| key > EMPTY_KEY && self.bucket_for(key).holds(key),
            |key: i32| self.bucket_for(key).value_of(key),
        )
    }
}

/// The number of keys that `buckets` hold together.
pub open spec fn buckets_filled(buckets: Seq<FixedMapBucket>) -> nat
    decreases buckets.len(),
{
    if buckets.len() == 0 {
        0
    } else {
        buckets_filled(buckets.drop_last()) + buckets.last().filled()
    }
}

/// The buckets together hold at least what one of them holds.
pub proof fn lemma_buckets_filled_covers(buckets: Seq<FixedMapBucket>, b: int)
    requires
        0 <= b < buckets.len(),
    ensures
        buckets_filled(buckets) >= buckets[b].filled(),
    decreases buckets.len(),
{
    if b < buckets.len() - 1 {
        lemma_buckets_filled_covers(buckets.drop_last(), b);
    }
}

/// Changing one bucket changes what the buckets hold together by what that
/// bucket held and what it holds now.
pub proof fn lemma_buckets_filled_update(
    buckets: Seq<FixedMapBucket>,
    b: int,
    bucket: FixedMapBucket,
)
    requires
        0 <= b < buckets.len(),
    ensures
        buckets_filled(buckets.update(b, bucket)) + buckets[b].filled() == buckets_filled(buckets)
            + bucket.filled(),
    decreases buckets.len(),
{
    let front = buckets.drop_last();
    if b == buckets.len() - 1 {
        assert(buckets.update(b, bucket).drop_last() =~= front);
    } else {
        lemma_buckets_filled_update(front, b, bucket);
        assert(buckets.update(b, bucket).drop_last() =~= front.update(b, bucket));
    }
}

impl FixedMap {
    /// The buckets of the table.
    pub closed spec fn buckets(&self) -> Seq<FixedMapBucket> {
        self.buckets_vec@
    }

    /// The number of buckets that the table was made with.
    pub closed spec fn bucket_count(&self) -> int {
        self.bucket_count as int
    }

    /// The number of slots that each bucket was made with.
    pub closed spec fn bucket_size(&self) -> int {
        self.bucket_size as int
    }

    /// The bucket in which `key` lives.
    pub open spec fn bucket_for(&self, key: i32) -> FixedMapBucket {
        self.buckets()[(key as int) % self.bucket_count()]
    }

    /// Whether the table is in order: it has the buckets it was made with,
    /// at least one, and each of them is in order and has the slots it was
    /// made with.
    pub open spec fn wf(&self) -> bool {
        &&& self.bucket_count() > 0
        &&& self.buckets().len() == self.bucket_count()
        &&& forall|b: int|
            0 <= b < self.buckets().len() ==> (#[trigger] self.buckets()[b]).wf()
                && self.buckets()[b].slots().len() == self.bucket_size()
    }

    /// Whether the table can take `key`: it holds `key` already, or the
    /// bucket in which `key` lives has an empty slot.
    pub open spec fn has_room(&self, key: i32) -> bool {
        self.bucket_for(key).has_room(key)
    }

    /// The number of keys that the table holds.
    pub open spec fn len(&self) -> nat {
        buckets_filled(self.buckets())
    }

    /// A table that holds fewer keys than one bucket has slots has room for
    /// every key, wherever the key lives: a bucket without room would hold
    /// that many keys by itself.
    pub proof fn lemma_room_below_capacity(&self, key: i32)
        requires
            self.wf(),
            key > EMPTY_KEY,
            self.len() < self.bucket_size(),
        ensures
            self.has_room(key),
    {
        let b = (key as int) % self.bucket_count();
        lemma_remainder_in_range(key as int, self.bucket_count());
        lemma_buckets_filled_covers(self.buckets(), b);
        lemma_filled_bound(self.buckets()[b].slots());
    }

    /// What the view holds is what the buckets hold.
    pub proof fn lemma_view(&self, key: i32)
        ensures
            self@.contains_key(key) == (key > EMPTY_KEY && self.bucket_for(key).holds(key)),
            self@.contains_key(key) ==> self@[key] == self.bucket_for(key).value_of(key),
    {
    }

    /// An empty table of `bucket_count` buckets with `bucket_size` slots
    /// each.
    pub fn new(bucket_count: usize, bucket_size: usize) -> (map: FixedMap)
        requires
            bucket_count > 0,
        ensures
            map.wf(),
            map.bucket_count() == bucket_count,
            map.bucket_size() == bucket_size,
            map@ == Map::<i32, i32>::empty(),
            map.len() == 0,
            bucket_size > 0 ==> forall|key: i32| key > EMPTY_KEY ==> map.has_room(key),
    {
        let mut buckets_vec: Vec<FixedMapBucket> = Vec::new();
        let mut i: usize = 0;
        while i < bucket_count
            invariant
                i <= bucket_count,
                buckets_vec@.len() == i,
                buckets_filled(buckets_vec@) == 0,
                forall|b: int|
                    0 <= b < i ==> (#[trigger] buckets_vec@[b]).wf() && buckets_vec@[b].slots().len()
                        == bucket_size && (forall|key: i32| !buckets_vec@[b].holds(key)) && (
                    bucket_size > 0 ==> forall|key: i32| buckets_vec@[b].has_room(key)),
            decreases bucket_count - i,
        {
            let ghost before = buckets_vec@;
            buckets_vec.push(FixedMapBucket::new(bucket_size));
            i += 1;
            assert(buckets_vec@.drop_last() =~= before);
        }
        let map = FixedMap { buckets_vec, bucket_count, bucket_size };
        assert forall|key: i32| key > EMPTY_KEY implies !map.bucket_for(key).holds(key) && (
        bucket_size > 0 ==> map.has_room(key)) by {
            lemma_remainder_in_range(key as int, bucket_count as int);
        }
        assert(map@ =~= Map::<i32, i32>::empty());
        map
    }

    fn hash(&self, key: i32) -> (bucket: usize)
        requires
            self.wf(),
            key > EMPTY_KEY,
        ensures
            bucket == (key as int) % self.bucket_count(),
            bucket < self.buckets().len(),
    {
        (key as usize) % self.bucket_count
    }

    /// Whether the table can take `key`.
    pub fn can_insert(&self, key: i32) -> (room: bool)
        requires
            self.wf(),
            key > EMPTY_KEY,
        ensures
            room == self.has_room(key),
    {
        let hash = self.hash(key);
        self.buckets_vec[hash].can_insert(key)
    }

    /// Gives `key` the value `value`. The table must have room for `key`.
    pub fn insert(&mut self, key: i32, value: i32)
        requires
            old(self).wf(),
            key > EMPTY_KEY,
            old(self).has_room(key),
        ensures
            final(self).wf(),
            final(self).bucket_count() == old(self).bucket_count(),
            final(self).bucket_size() == old(self).bucket_size(),
            final(self)@ == old(self)@.insert(key, value),
            final(self).len() == old(self).len() + (if old(self)@.contains_key(key) {
                0nat
            } else {
                1nat
            }),
            forall|other: i32|
                other > EMPTY_KEY && (other as int) % old(self).bucket_count() != (key as int)
                    % old(self).bucket_count() ==> final(self).has_room(other) == old(self).has_room(other),
    {
        let hash = self.hash(key);
        let bucket = &mut self.buckets_vec[hash];
        bucket.insert(key, value);
        proof {
            lemma_buckets_filled_update(
                old(self).buckets(),
                hash as int,
                self.buckets()[hash as int],
            );
            assert(self.buckets() =~= old(self).buckets().update(
                hash as int,
                self.buckets()[hash as int],
            ));
            assert forall|other: i32|
                other > EMPTY_KEY implies self@.contains_key(other) == old(self)@.insert(
                key,
                value,
            ).contains_key(other) && (self@.contains_key(other) ==> self@[other]
                == old(self)@.insert(key, value)[other]) by {
                lemma_remainder_in_range(other as int, self.bucket_count());
            }
            assert(self@ =~= old(self)@.insert(key, value));
        }
    }

    /// Takes `key` out of the table, where the table holds it. Nothing that
    /// had room before loses it.
    pub fn remove(&mut self, key: i32)
        requires
            old(self).wf(),
            key > EMPTY_KEY,
        ensures
            final(self).wf(),
            final(self).bucket_count() == old(self).bucket_count(),
            final(self).bucket_size() == old(self).bucket_size(),
            final(self)@ == old(self)@.remove(key),
            final(self).len() + (if old(self)@.contains_key(key) {
                1nat
            } else {
                0nat
            }) == old(self).len(),
            forall|other: i32|
                other > EMPTY_KEY && old(self).has_room(other) ==> final(self).has_room(other),
            old(self)@.contains_key(key) ==> final(self).has_room(key),
    {
        let hash = self.hash(key);
        let bucket = &mut self.buckets_vec[hash];
        bucket.remove(key);
        proof {
            lemma_buckets_filled_update(
                old(self).buckets(),
                hash as int,
                self.buckets()[hash as int],
            );
            assert(self.buckets() =~= old(self).buckets().update(
                hash as int,
                self.buckets()[hash as int],
            ));
            assert forall|other: i32|
                other > EMPTY_KEY implies self@.contains_key(other) == old(self)@.remove(
                key,
            ).contains_key(other) && (self@.contains_key(other) ==> self@[other]
                == old(self)@.remove(key)[other]) && (old(self).has_room(other)
                ==> self.has_room(other)) by {
                lemma_remainder_in_range(other as int, self.bucket_count());
            }
            assert(self@ =~= old(self)@.remove(key));
        }
    }

    /// The value that the table gives to `key`, where it holds `key`.
    pub fn get(&self, key: i32) -> (value: Option<i32>)
        requires
            self.wf(),
            key > EMPTY_KEY,
        ensures
            value == (if self@.contains_key(key) {
                Some(self@[key])
            } else {
                None::<i32>
            }),
    {
        let hash = self.hash(key);
        self.buckets_vec[hash].get(key)
    }
}

/// The remainder of a number that is not negative, by a positive divisor,
/// is not negative and below the divisor.
pub proof fn lemma_remainder_in_range(n: int, divisor: int)
    requires
        n >= 0,
        divisor > 0,
    ensures
        0 <= n % divisor < divisor,
{
}

} // verus!
