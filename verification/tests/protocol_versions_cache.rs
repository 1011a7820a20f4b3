use consensus_core::protocol_version::ProtocolVersionsCache;
use nohash_hasher::IntMap;
use std::cell::Cell;

fn counters(entries: &[(u32, u64)]) -> IntMap<u32, u64> {
    let mut map: IntMap<u32, u64> = IntMap::default();
    for (version, count) in entries {
        map.insert(*version, *count);
    }
    map
}

fn loaded_cache(entries: &[(u32, u64)]) -> ProtocolVersionsCache {
    let mut cache = ProtocolVersionsCache::new();
    let stored = counters(entries);
    let outcome: Result<(), String> = cache.load_if_needed(move || Ok(stored));
    assert_eq!(outcome, Ok(()));
    cache
}

fn sorted(mut versions: Vec<u32>) -> Vec<u32> {
    versions.sort();
    versions
}

#[test]
fn new_cache_is_empty() {
    let cache = ProtocolVersionsCache::new();
    assert!(cache.global_cache.is_empty());
    assert_eq!(cache.get(&1), None);
    let by_default = ProtocolVersionsCache::default();
    assert!(by_default.global_cache.is_empty());
    assert_eq!(by_default.get(&1), None);
}

#[test]
fn load_fills_global_cache_once() {
    let calls = Cell::new(0u32);
    let mut cache = ProtocolVersionsCache::new();
    let first: Result<(), String> = cache.load_if_needed(|| {
        calls.set(calls.get() + 1);
        Ok(counters(&[(1, 5), (2, 3)]))
    });
    assert_eq!(first, Ok(()));
    assert_eq!(calls.get(), 1);
    assert_eq!(cache.global_cache, counters(&[(1, 5), (2, 3)]));

    let second: Result<(), String> = cache.load_if_needed(|| {
        calls.set(calls.get() + 1);
        Ok(counters(&[(9, 9)]))
    });
    assert_eq!(second, Ok(()));
    assert_eq!(calls.get(), 1);
    assert_eq!(cache.global_cache, counters(&[(1, 5), (2, 3)]));
}

#[test]
fn load_failure_propagates_and_is_tried_again() {
    let mut cache = ProtocolVersionsCache::new();
    cache.set_block_cache_version_count(4, 2);
    let failed: Result<(), String> = cache.load_if_needed(|| Err("storage is down".to_string()));
    assert_eq!(failed, Err("storage is down".to_string()));
    assert!(cache.global_cache.is_empty());
    assert_eq!(cache.get(&4), Some(&2));

    let retried: Result<(), String> = cache.load_if_needed(|| Ok(counters(&[(7, 1)])));
    assert_eq!(retried, Ok(()));
    assert_eq!(cache.global_cache, counters(&[(7, 1)]));
}

#[test]
fn set_block_count_overwrites() {
    let mut cache = ProtocolVersionsCache::new();
    cache.set_block_cache_version_count(3, 10);
    assert_eq!(cache.get(&3), Some(&10));
    cache.set_block_cache_version_count(3, 4);
    assert_eq!(cache.get(&3), Some(&4));
    assert_eq!(cache.get(&5), None);
    assert!(cache.global_cache.is_empty());
}

#[test]
fn get_prefers_block_cache() {
    let mut cache = loaded_cache(&[(1, 5), (2, 3)]);
    cache.set_block_cache_version_count(2, 4);
    assert_eq!(cache.get(&2), Some(&4));
    assert_eq!(cache.get(&1), Some(&5));
    assert_eq!(cache.get(&3), None);
    assert_eq!(cache.global_cache, counters(&[(1, 5), (2, 3)]));
}

#[test]
fn clear_block_cache_keeps_global() {
    let mut cache = loaded_cache(&[(1, 5)]);
    cache.set_block_cache_version_count(1, 9);
    cache.set_block_cache_version_count(2, 1);
    cache.clear_block_cache();
    assert_eq!(cache.get(&1), Some(&5));
    assert_eq!(cache.get(&2), None);
}

#[test]
fn merge_adds_block_votes_to_global() {
    let mut cache = loaded_cache(&[(1, 5), (2, 3)]);
    cache.set_block_cache_version_count(2, 4);
    cache.set_block_cache_version_count(3, 1);
    cache.merge_block_cache();
    assert_eq!(cache.global_cache, counters(&[(1, 5), (2, 7), (3, 1)]));
    // the block cache is empty: a reader sees the merged tally
    assert_eq!(cache.get(&2), Some(&7));
    cache.merge_block_cache();
    assert_eq!(cache.global_cache, counters(&[(1, 5), (2, 7), (3, 1)]));
}

#[test]
fn merge_reaches_the_largest_count() {
    let mut cache = loaded_cache(&[(1, u64::MAX - 1)]);
    cache.set_block_cache_version_count(1, 1);
    cache.merge_block_cache();
    assert_eq!(cache.global_cache, counters(&[(1, u64::MAX)]));
}

#[test]
fn vote_accumulation_passes_threshold_then_wipes() {
    let mut cache = loaded_cache(&[(1, 5), (2, 3)]);
    cache.set_block_cache_version_count(2, 4);
    let passing = cache.versions_passing_threshold(7);
    assert_eq!(passing, vec![2]);
    // the evaluation leaves the global tally alone and consumes the block's votes
    assert_eq!(cache.global_cache, counters(&[(1, 5), (2, 3)]));
    assert_eq!(cache.get(&2), Some(&3));
    cache.merge_block_cache();
    assert!(cache.global_cache.is_empty());
    assert_eq!(cache.get(&1), None);
    assert_eq!(cache.get(&2), None);
    assert_ne!(cache.global_cache, counters(&[(1, 5), (2, 7)]));
}

#[test]
fn merge_after_wipe_adds_again() {
    let mut cache = loaded_cache(&[(1, 5)]);
    let _ = cache.versions_passing_threshold(1);
    cache.set_block_cache_version_count(8, 2);
    cache.merge_block_cache();
    assert!(cache.global_cache.is_empty());
    assert_eq!(cache.get(&8), None);
    cache.set_block_cache_version_count(8, 2);
    cache.merge_block_cache();
    assert_eq!(cache.global_cache, counters(&[(8, 2)]));
}

#[test]
fn threshold_lists_each_version_once() {
    let mut cache = loaded_cache(&[(1, 5), (2, 3), (3, 10)]);
    cache.set_block_cache_version_count(2, 4);
    cache.set_block_cache_version_count(4, 6);
    cache.set_block_cache_version_count(5, 5);
    assert_eq!(sorted(cache.versions_passing_threshold(6)), vec![2, 3, 4]);
}

#[test]
fn threshold_edges() {
    let mut none = loaded_cache(&[(1, 5)]);
    assert_eq!(none.versions_passing_threshold(6), Vec::<u32>::new());

    let mut exact = loaded_cache(&[(1, 5)]);
    assert_eq!(exact.versions_passing_threshold(5), vec![1]);

    let mut zero = loaded_cache(&[(1, 0)]);
    zero.set_block_cache_version_count(2, 0);
    assert_eq!(sorted(zero.versions_passing_threshold(0)), vec![1, 2]);

    let mut empty = ProtocolVersionsCache::new();
    assert_eq!(empty.versions_passing_threshold(0), Vec::<u32>::new());

    // the sum of the two counts is compared, also where it is past u64
    let mut large = loaded_cache(&[(1, u64::MAX), (2, 1)]);
    large.set_block_cache_version_count(1, u64::MAX);
    large.set_block_cache_version_count(2, u64::MAX - 2);
    assert_eq!(large.versions_passing_threshold(u64::MAX), vec![1]);
}

#[test]
fn global_reads_the_committed_tally() {
    let mut cache = loaded_cache(&[(1, 5), (2, 3)]);
    cache.set_block_cache_version_count(2, 4);
    assert_eq!(cache.global(), &counters(&[(1, 5), (2, 3)]));
    assert_eq!(cache.global(), &cache.global_cache);
    cache.merge_block_cache();
    assert_eq!(cache.global(), &counters(&[(1, 5), (2, 7)]));
    assert!(ProtocolVersionsCache::new().global().is_empty());
}

#[test]
fn block_votes_fit_tells_whether_sums_fit() {
    let mut cache = loaded_cache(&[(1, u64::MAX - 1), (2, 3)]);
    assert!(cache.block_votes_fit());
    cache.set_block_cache_version_count(1, 1);
    cache.set_block_cache_version_count(3, u64::MAX);
    assert!(cache.block_votes_fit());
    cache.set_block_cache_version_count(1, 2);
    assert!(!cache.block_votes_fit());
    cache.set_block_cache_version_count(1, 0);
    cache.set_block_cache_version_count(2, u64::MAX - 2);
    assert!(!cache.block_votes_fit());
}

#[test]
fn checked_merge_adds_where_sums_fit() {
    let mut cache = loaded_cache(&[(1, 5), (2, 3)]);
    cache.set_block_cache_version_count(2, 4);
    cache.set_block_cache_version_count(3, 1);
    assert!(cache.checked_merge_block_cache());
    assert_eq!(cache.global_cache, counters(&[(1, 5), (2, 7), (3, 1)]));
    assert_eq!(cache.get(&2), Some(&7));
}

#[test]
fn checked_merge_changes_nothing_where_a_sum_does_not_fit() {
    let mut cache = loaded_cache(&[(1, u64::MAX), (2, 3)]);
    cache.set_block_cache_version_count(1, 1);
    cache.set_block_cache_version_count(2, 4);
    assert!(!cache.checked_merge_block_cache());
    assert_eq!(cache.global_cache, counters(&[(1, u64::MAX), (2, 3)]));
    assert_eq!(cache.get(&1), Some(&1));
    assert_eq!(cache.get(&2), Some(&4));
    // lowering the block's count makes the merge possible
    cache.set_block_cache_version_count(1, 0);
    assert!(cache.checked_merge_block_cache());
    assert_eq!(cache.global_cache, counters(&[(1, u64::MAX), (2, 7)]));
}

#[test]
fn checked_merge_wipes_whatever_the_sums() {
    let mut cache = loaded_cache(&[(1, u64::MAX)]);
    let _ = cache.versions_passing_threshold(1);
    cache.set_block_cache_version_count(1, u64::MAX);
    assert!(cache.checked_merge_block_cache());
    assert!(cache.global_cache.is_empty());
    assert_eq!(cache.get(&1), None);
}
