//! Concurrent hash maps: one map behind one lock, and a fixed array of such
//! maps that a keyed hash routes each key to.
use std::collections::HashMap;
use std::sync::Arc;
use vstd::prelude::*;
use vstd::rwlock::RwLock;
use vstd::rwlock::RwLockPredicate;

verus! {

broadcast use vstd::std_specs::hash::group_hash_axioms;

/// Relies on Arc::clone: the new handle points to the same allocation, so
/// it reaches the same value.
#[verifier::external_body]
pub(crate) fn share<T>(a: &Arc<T>) -> (r: Arc<T>)
    ensures
        *r == **a,
{
    Arc::clone(a)
}

/// SipHash of `key` under the seeds `k0` and `k1`.
pub uninterp spec fn keyed_hash_of(k0: u64, k1: u64, key: u64) -> u64;

/// Relies on std's SipHasher with the two seeds, fed the key's eight
/// little-endian bytes: the result depends on the three values alone.
#[verifier::external_body]
#[allow(deprecated)]
fn keyed_hash(k0: u64, k1: u64, key: u64) -> (r: u64)
    ensures
        r == keyed_hash_of(k0, k1, key),
{
    let mut h = std::hash::SipHasher::new_with_keys(k0, k1);
    std::hash::Hasher::write(&mut h, &key.to_le_bytes());
    std::hash::Hasher::finish(&h)
}

/// The shard, out of `count`, that `key` belongs to.
pub open spec fn shard_of(k0: u64, k1: u64, key: u64, count: nat) -> nat
    recommends
        count > 0,
{
    (keyed_hash_of(k0, k1, key) as nat) % count
}

/// The value stored under `k` in `m`, if any.
pub open spec fn entry<V>(m: Map<u64, V>, k: u64) -> Option<V> {
    if m.contains_key(k) {
        Some(m[k])
    } else {
        None
    }
}

/// Stores `v` under `k`, and returns the value stored there before.
pub fn upsert<V>(m: &mut HashMap<u64, V>, k: u64, v: V) -> (r: Option<V>)
    ensures
        final(m)@ == old(m)@.insert(k, v),
        r == entry(old(m)@, k),
{
    m.insert(k, v)
}

/// Removes the entry under `k`, and returns its value, if there was one.
pub fn take_entry<V>(m: &mut HashMap<u64, V>, k: u64) -> (r: Option<V>)
    ensures
        final(m)@ == old(m)@.remove(k),
        r == entry(old(m)@, k),
{
    m.remove(&k)
}

/// A copy of the value stored under `k`, if any; the map is left as it is.
pub fn copy_entry<V: Clone>(m: &HashMap<u64, V>, k: u64) -> (r: Option<V>)
    ensures
        r is Some <==> m@.contains_key(k),
        r matches Some(c) ==> cloned(m@[k], c),
{
    match m.get(&k) {
        Some(v) => Some(v.clone()),
        None => None,
    }
}

/// What a shard's lock guards: every key it holds is routed to it.
pub struct ShardPred {
    pub k0: u64,
    pub k1: u64,
    pub index: nat,
    pub count: nat,
}

impl<V> RwLockPredicate<HashMap<u64, V>> for ShardPred {
    open spec fn inv(self, m: HashMap<u64, V>) -> bool {
        forall|k: u64| #[trigger] m@.contains_key(k) ==> shard_of(self.k0, self.k1, k, self.count)
            == self.index
    }
}

/// One hash map guarded by one lock. The seeds route keys between shards;
/// inside a shard, std's `HashMap` hashes with keys of its own, drawn at
/// random.
#[verifier::reject_recursive_types(V)]
pub struct LockedHashMap<V> {
    map: RwLock<HashMap<u64, V>, ShardPred>,
}

impl<V> LockedHashMap<V> {
    /// The keys this map may hold: those routed to its shard.
    pub closed spec fn pred(&self) -> ShardPred {
        self.map.pred()
    }

    pub open spec fn admits(&self, key: u64) -> bool {
        shard_of(self.pred().k0, self.pred().k1, key, self.pred().count) == self.pred().index
    }

    /// An empty map, shard `index` out of `count` under the seeds `k0`, `k1`.
    fn shard(k0: u64, k1: u64, capacity: usize, index: usize, count: usize) -> (r: Self)
        ensures
            r.pred() == (ShardPred { k0, k1, index: index as nat, count: count as nat }),
    {
        let m: HashMap<u64, V> = HashMap::with_capacity(capacity);
        LockedHashMap {
            map: RwLock::new(m, Ghost(ShardPred { k0, k1, index: index as nat, count: count as nat })),
        }
    }

    /// A map that admits every key: the only shard out of one.
    pub fn with_capacity_and_keys(k0: u64, k1: u64, capacity: usize) -> (r: Self)
        ensures
            r.pred() == (ShardPred { k0, k1, index: 0, count: 1 }),
            forall|key: u64| r.admits(key),
    {
        LockedHashMap::shard(k0, k1, capacity, 0, 1)
    }

    /// Stores `v` under `k`, and returns the value stored there before:
    /// `upsert` on the map, while holding its lock.
    pub fn swap(&self, k: u64, v: V) -> Option<V>
        requires
            self.admits(k),
    {
        let (mut m, handle) = self.map.acquire_write();
        let before = upsert(&mut m, k, v);
        handle.release_write(m);
        before
    }

    /// Removes the entry under `k` and returns its value, if there was one.
    pub fn pop(&self, k: u64) -> Option<V> {
        let (mut m, handle) = self.map.acquire_write();
        let before = take_entry(&mut m, k);
        handle.release_write(m);
        before
    }
}

impl<V: Clone> LockedHashMap<V> {
    /// A copy of the value stored under `k`, if any. The copy is taken while
    /// the lock is held and stays valid after it is released.
    pub fn find(&self, k: u64) -> Option<V> {
        let handle = self.map.acquire_read();
        let r = copy_entry(handle.borrow(), k);
        handle.release_read();
        r
    }
}

/// A hash map shared between threads behind a single lock. A clone is a
/// second handle on the same map.
#[verifier::reject_recursive_types(V)]
pub struct ConcurrentHashMap<V> {
    ptr: Arc<LockedHashMap<V>>,
    k0: u64,
    k1: u64,
}

impl<V> ConcurrentHashMap<V> {
    #[verifier::type_invariant]
    spec fn single_shard(self) -> bool {
        self.ptr.pred() == (ShardPred { k0: self.k0, k1: self.k1, index: 0, count: 1 })
    }

    /// The two hash seeds, fixed for the map's lifetime.
    pub closed spec fn seeds(&self) -> (u64, u64) {
        (self.k0, self.k1)
    }

    /// An empty map with the seeds `k0`, `k1` and room for `capacity` entries.
    pub fn with_capacity_and_keys(k0: u64, k1: u64, capacity: usize) -> (r: ConcurrentHashMap<V>)
        ensures
            r.seeds() == (k0, k1),
    {
        ConcurrentHashMap { ptr: Arc::new(LockedHashMap::with_capacity_and_keys(k0, k1, capacity)), k0, k1 }
    }

    /// Stores `v` under `k`, and returns the value stored there before.
    pub fn swap(&self, k: u64, v: V) -> Option<V> {
        proof {
            use_type_invariant(self);
        }
        self.ptr.swap(k, v)
    }

    /// Removes the entry under `k` and returns its value, if there was one.
    pub fn pop(&self, k: u64) -> Option<V> {
        self.ptr.pop(k)
    }
}

impl<V: Clone> ConcurrentHashMap<V> {
    /// A copy of the value stored under `k`, if any.
    pub fn find(&self, k: u64) -> Option<V> {
        self.ptr.find(k)
    }
}

impl<V> Clone for ConcurrentHashMap<V> {
    /// A second handle on the same map.
    fn clone(&self) -> (r: ConcurrentHashMap<V>)
        ensures
            r.seeds() == self.seeds(),
    {
        proof {
            use_type_invariant(self);
        }
        ConcurrentHashMap { ptr: share(&self.ptr), k0: self.k0, k1: self.k1 }
    }
}

/// The shards of a sharded map, and the seeds that route keys to them.
#[verifier::reject_recursive_types(V)]
struct ShardSet<V> {
    maps: Vec<LockedHashMap<V>>,
    k0: u64,
    k1: u64,
}

impl<V> ShardSet<V> {
    /// Shard `i` admits exactly the keys routed to index `i`.
    #[verifier::type_invariant]
    spec fn routed(self) -> bool {
        &&& self.maps@.len() > 0
        &&& forall|i: int|
            0 <= i < self.maps@.len() ==> (#[trigger] self.maps@[i]).pred() == (ShardPred {
                k0: self.k0,
                k1: self.k1,
                index: i as nat,
                count: self.maps@.len(),
            })
    }

    spec fn count(self) -> nat {
        self.maps@.len()
    }

    fn get_shard(&self, k: u64) -> (r: usize)
        ensures
            r == shard_of(self.k0, self.k1, k, self.count()),
            r < self.count(),
    {
        proof {
            use_type_invariant(self);
        }
        let h = keyed_hash(self.k0, self.k1, k);
        let n = self.maps.len() as u64;
        (h % n) as usize
    }
}

/// A hash map split into a fixed number of shards, each behind its own
/// lock. A key is always handled by the one shard it hashes to, so work on
/// keys of different shards never waits on the same lock. A clone is a
/// second handle on the same shards.
#[verifier::reject_recursive_types(V)]
pub struct ShardMap<V> {
    ptr: Arc<ShardSet<V>>,
}

impl<V> ShardMap<V> {
    /// The two hash seeds, fixed for the map's lifetime.
    pub closed spec fn seeds(&self) -> (u64, u64) {
        (self.ptr.k0, self.ptr.k1)
    }

    /// The number of shards, fixed for the map's lifetime.
    pub closed spec fn shard_count(&self) -> nat {
        self.ptr.count()
    }

    /// Shard `i`, a map behind a lock of its own.
    pub closed spec fn shard(&self, i: int) -> LockedHashMap<V> {
        self.ptr.maps@[i]
    }

    /// Each shard `i` admits exactly the keys routed to index `i`.
    pub open spec fn routes_by_shard(&self) -> bool {
        forall|i: int|
            0 <= i < self.shard_count() ==> (#[trigger] self.shard(i)).pred() == (ShardPred {
                k0: self.seeds().0,
                k1: self.seeds().1,
                index: i as nat,
                count: self.shard_count(),
            })
    }

    /// An empty map of `shards` shards, each with room for `capacity`
    /// entries, routing keys with the seeds `k0` and `k1`.
    pub fn with_capacity_and_keys(shards: usize, k0: u64, k1: u64, capacity: usize) -> (r: ShardMap<V>)
        requires
            shards > 0,
        ensures
            r.seeds() == (k0, k1),
            r.shard_count() == shards,
            r.routes_by_shard(),
    {
        let mut xs: Vec<LockedHashMap<V>> = Vec::with_capacity(shards);
        let mut i: usize = 0;
        while i < shards
            invariant
                i <= shards,
                xs@.len() == i,
                forall|j: int|
                    0 <= j < i ==> (#[trigger] xs@[j]).pred() == (ShardPred {
                        k0,
                        k1,
                        index: j as nat,
                        count: shards as nat,
                    }),
            decreases shards - i,
        {
            xs.push(LockedHashMap::shard(k0, k1, capacity, i, shards));
            i = i + 1;
        }
        ShardMap { ptr: Arc::new(ShardSet { maps: xs, k0, k1 }) }
    }

    /// The index of the shard that handles `k`.
    pub fn get_shard(&self, k: u64) -> (r: usize)
        ensures
            r == shard_of(self.seeds().0, self.seeds().1, k, self.shard_count()),
            r < self.shard_count(),
    {
        self.ptr.get_shard(k)
    }

    /// Stores `v` under `k` in its shard, and returns the value stored there
    /// before.
    pub fn swap(&self, k: u64, v: V) -> Option<V> {
        let shard = self.ptr.get_shard(k);
        proof {
            use_type_invariant(&*self.ptr);
        }
        self.ptr.maps[shard].swap(k, v)
    }

    /// Removes the entry under `k` from its shard and returns its value, if
    /// there was one.
    pub fn pop(&self, k: u64) -> Option<V> {
        let shard = self.ptr.get_shard(k);
        self.ptr.maps[shard].pop(k)
    }
}

impl<V: Clone> ShardMap<V> {
    /// A copy of the value stored under `k`, if any.
    pub fn find(&self, k: u64) -> Option<V> {
        let shard = self.ptr.get_shard(k);
        self.ptr.maps[shard].find(k)
    }
}

impl<V> Clone for ShardMap<V> {
    /// A second handle on the same shards.
    fn clone(&self) -> (r: ShardMap<V>)
        ensures
            r.seeds() == self.seeds(),
            r.shard_count() == self.shard_count(),
            forall|i: int| 0 <= i < self.shard_count() ==> r.shard(i) == self.shard(i),
    {
        ShardMap { ptr: share(&self.ptr) }
    }
}

/// Routing is stable: within one sharded map, a key is sent to the same
/// shard on every call, as the shard depends on the seeds, the shard count
/// and the key alone, and none of them changes.
pub proof fn lemma_get_shard_stable<V>(m: &ShardMap<V>, k: u64, r1: usize, r2: usize)
    requires
        r1 == shard_of(m.seeds().0, m.seeds().1, k, m.shard_count()),
        r2 == shard_of(m.seeds().0, m.seeds().1, k, m.shard_count()),
    ensures
        r1 == r2,
{
}

/// Shard isolation: two keys routed to different indices are held by
/// different shards, whose locks are distinct, and each key is admitted by
/// the shard at its own index.
pub proof fn lemma_shard_isolation<V>(m: &ShardMap<V>, a: u64, b: u64)
    requires
        m.routes_by_shard(),
        m.shard_count() > 0,
        shard_of(m.seeds().0, m.seeds().1, a, m.shard_count()) != shard_of(
            m.seeds().0,
            m.seeds().1,
            b,
            m.shard_count(),
        ),
    ensures
        ({
            let ia = shard_of(m.seeds().0, m.seeds().1, a, m.shard_count()) as int;
            let ib = shard_of(m.seeds().0, m.seeds().1, b, m.shard_count()) as int;
            &&& m.shard(ia).admits(a)
            &&& m.shard(ib).admits(b)
            &&& !m.shard(ia).admits(b)
            &&& m.shard(ia).pred() != m.shard(ib).pred()
        }),
{
    let ia = shard_of(m.seeds().0, m.seeds().1, a, m.shard_count()) as int;
    let ib = shard_of(m.seeds().0, m.seeds().1, b, m.shard_count()) as int;
    assert(0 <= ia < m.shard_count());
    assert(0 <= ib < m.shard_count());
    assert(m.shard(ia).pred().index == ia);
    assert(m.shard(ib).pred().index == ib);
}

} // verus!
