use concurrent::map::ConcurrentHashMap;
use concurrent::map::LockedHashMap;
use concurrent::map::ShardMap;
use concurrent::map::copy_entry;
use concurrent::map::take_entry;
use concurrent::map::upsert;
use std::collections::HashMap;
use std::hash::Hasher;

// The key that stands for "a".
const KEY_A: u64 = 0x61;

#[allow(deprecated)]
fn sip(k0: u64, k1: u64, key: u64) -> u64 {
    let mut h = std::hash::SipHasher::new_with_keys(k0, k1);
    h.write(&key.to_le_bytes());
    h.finish()
}

#[test]
fn map_upsert_remove_sequence() {
    let m: ConcurrentHashMap<i32> = ConcurrentHashMap::with_capacity_and_keys(7, 11, 16);
    assert_eq!(m.swap(KEY_A, 1), None);
    assert_eq!(m.swap(KEY_A, 2), Some(1));
    assert_eq!(m.pop(KEY_A), Some(2));
    assert_eq!(m.find(KEY_A), None);
}

#[test]
fn map_pop_of_absent_key_is_none() {
    let m: ConcurrentHashMap<i32> = ConcurrentHashMap::with_capacity_and_keys(0, 0, 0);
    assert_eq!(m.pop(5), None);
    m.swap(5, 9);
    assert_eq!(m.pop(6), None);
    assert_eq!(m.find(5), Some(9));
}

#[test]
fn map_find_returns_independent_copy() {
    let m: ConcurrentHashMap<Vec<u8>> = ConcurrentHashMap::with_capacity_and_keys(1, 2, 4);
    m.swap(3, vec![1, 2]);
    let seen = m.find(3).unwrap();
    assert_eq!(m.swap(3, vec![9]), Some(vec![1, 2]));
    assert_eq!(seen, vec![1, 2]);
    assert_eq!(m.find(3), Some(vec![9]));
}

#[test]
fn map_clone_shares_entries() {
    let m1: ConcurrentHashMap<&str> = ConcurrentHashMap::with_capacity_and_keys(4, 5, 8);
    let m2 = m1.clone();
    m1.swap(1, "one");
    assert_eq!(m2.find(1), Some("one"));
    assert_eq!(m2.pop(1), Some("one"));
    assert_eq!(m1.find(1), None);
}

#[test]
fn locked_map_alone() {
    let m: LockedHashMap<u32> = LockedHashMap::with_capacity_and_keys(9, 9, 2);
    assert_eq!(m.swap(42, 1), None);
    assert_eq!(m.find(42), Some(1));
    assert_eq!(m.pop(42), Some(1));
    assert_eq!(m.pop(42), None);
}

#[test]
fn shard_routing_is_stable() {
    let m: ShardMap<u8> = ShardMap::with_capacity_and_keys(8, 123, 456, 4);
    for key in [0u64, 1, KEY_A, 1 << 40, u64::MAX] {
        let first = m.get_shard(key);
        assert!(first < 8);
        for _ in 0..5 {
            assert_eq!(m.get_shard(key), first);
        }
    }
}

#[test]
fn shard_index_is_keyed_hash_mod_count() {
    let m: ShardMap<u8> = ShardMap::with_capacity_and_keys(13, 0x0706050403020100, 0x0f0e0d0c0b0a0908, 1);
    for key in [0u64, 2, 13, 26, 1000, u64::MAX] {
        let expected = (sip(0x0706050403020100, 0x0f0e0d0c0b0a0908, key) % 13) as usize;
        assert_eq!(m.get_shard(key), expected);
    }
}

#[test]
fn shard_routing_depends_on_seeds() {
    let a: ShardMap<u8> = ShardMap::with_capacity_and_keys(64, 1, 2, 1);
    let b: ShardMap<u8> = ShardMap::with_capacity_and_keys(64, 3, 4, 1);
    let differ = (0u64..64).any(|k| a.get_shard(k) != b.get_shard(k));
    assert!(differ);
}

#[test]
fn shard_map_upsert_remove_sequence() {
    let m: ShardMap<i32> = ShardMap::with_capacity_and_keys(4, 7, 11, 16);
    assert_eq!(m.swap(KEY_A, 1), None);
    assert_eq!(m.swap(KEY_A, 2), Some(1));
    assert_eq!(m.pop(KEY_A), Some(2));
    assert_eq!(m.find(KEY_A), None);
}

#[test]
fn shard_map_holds_many_keys() {
    let m: ShardMap<u64> = ShardMap::with_capacity_and_keys(5, 17, 19, 0);
    for k in 0..100u64 {
        assert_eq!(m.swap(k, k * 10), None);
    }
    for k in 0..100u64 {
        assert_eq!(m.find(k), Some(k * 10));
    }
    for k in (0..100u64).step_by(2) {
        assert_eq!(m.pop(k), Some(k * 10));
    }
    for k in 0..100u64 {
        assert_eq!(m.find(k), if k % 2 == 0 { None } else { Some(k * 10) });
    }
}

#[test]
fn shard_map_single_shard() {
    let m: ShardMap<u8> = ShardMap::with_capacity_and_keys(1, 5, 6, 0);
    assert_eq!(m.get_shard(12345), 0);
    m.swap(12345, 1);
    assert_eq!(m.find(12345), Some(1));
}

#[test]
fn shard_map_find_returns_independent_copy() {
    let m: ShardMap<String> = ShardMap::with_capacity_and_keys(3, 1, 1, 1);
    m.swap(8, "old".to_string());
    let seen = m.find(8).unwrap();
    m.swap(8, "new".to_string());
    assert_eq!(seen, "old");
    assert_eq!(m.find(8), Some("new".to_string()));
}

#[test]
fn shard_map_clone_shares_shards() {
    let m1: ShardMap<i32> = ShardMap::with_capacity_and_keys(4, 1, 2, 1);
    let m2 = m1.clone();
    m1.swap(10, 100);
    assert_eq!(m2.find(10), Some(100));
    m2.swap(10, 200);
    assert_eq!(m1.pop(10), Some(200));
    assert_eq!(m1.get_shard(10), m2.get_shard(10));
}

#[test]
fn map_steps_under_lock() {
    let mut m: HashMap<u64, String> = HashMap::new();
    assert_eq!(upsert(&mut m, KEY_A, "1".to_string()), None);
    assert_eq!(upsert(&mut m, KEY_A, "2".to_string()), Some("1".to_string()));
    assert_eq!(copy_entry(&m, KEY_A), Some("2".to_string()));
    assert_eq!(m.len(), 1);
    assert_eq!(take_entry(&mut m, KEY_A), Some("2".to_string()));
    assert_eq!(take_entry(&mut m, KEY_A), None);
    assert_eq!(copy_entry(&m, KEY_A), None);
    assert!(m.is_empty());
}
