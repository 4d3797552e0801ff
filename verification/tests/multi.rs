use cache_register::multi::limit::OccupancyError;
use cache_register::multi::{LLCache, VecCache};

#[test]
fn new_vec_cache_is_empty_and_unlimited() {
    let cache: VecCache<u32> = VecCache::new();
    assert!(cache.is_empty());
    assert_eq!(cache.occupancy(), 0);
    assert_eq!(cache.limit(), None);
}

#[test]
fn default_vec_cache_is_empty_and_unlimited() {
    let cache: VecCache<u32> = VecCache::default();
    assert!(cache.is_empty());
    assert_eq!(cache.limit(), None);
}

#[test]
fn vec_cache_with_zero_limit_rejects_every_push() {
    let mut cache: VecCache<u32> = VecCache::with_limit(0);
    assert_eq!(cache.try_push(1), Err(OccupancyError::ZeroMaxOccupancy));
    assert_eq!(cache.occupancy(), 0);
    assert_eq!(cache.try_push(2), Err(OccupancyError::ZeroMaxOccupancy));
    assert_eq!(cache.occupancy(), 0);
}

#[test]
fn vec_cache_rejects_push_past_limit_and_recovers_after_unset() {
    let mut cache: VecCache<u32> = VecCache::with_limit(2);
    assert_eq!(cache.limit(), Some(2));
    assert_eq!(cache.try_push(10), Ok(()));
    assert_eq!(cache.try_push(20), Ok(()));
    assert_eq!(cache.occupancy(), 2);
    assert_eq!(cache.try_push(30), Err(OccupancyError::ReachedMaxOccupancy(2)));
    assert_eq!(cache.occupancy(), 2);
    assert_eq!(cache.unset_limit(), Some(2));
    assert_eq!(cache.limit(), None);
    assert_eq!(cache.try_push(30), Ok(()));
    assert_eq!(cache.occupancy(), 3);
}

#[test]
fn vec_cache_unlimited_accepts_many_pushes() {
    let mut cache: VecCache<u32> = VecCache::new();
    for i in 0..100 {
        assert_eq!(cache.try_push(i), Ok(()));
    }
    assert_eq!(cache.occupancy(), 100);
    assert!(!cache.is_empty());
}

#[test]
fn vec_cache_unset_limit_on_unlimited_returns_none() {
    let mut cache: VecCache<u32> = VecCache::new();
    assert_eq!(cache.unset_limit(), None);
    assert_eq!(cache.limit(), None);
}

#[test]
fn new_ll_cache_is_empty_and_unlimited() {
    let cache: LLCache<u32> = LLCache::new();
    assert!(cache.is_empty());
    assert_eq!(cache.occupancy(), 0);
    assert_eq!(cache.limit(), None);
}

#[test]
fn default_ll_cache_is_empty_and_unlimited() {
    let cache: LLCache<u32> = LLCache::default();
    assert!(cache.is_empty());
    assert_eq!(cache.limit(), None);
}

#[test]
fn ll_cache_with_zero_limit_rejects_every_push() {
    let mut cache: LLCache<u32> = LLCache::with_limit(0);
    assert_eq!(cache.try_push(1), Err(OccupancyError::ZeroMaxOccupancy));
    assert_eq!(cache.occupancy(), 0);
}

#[test]
fn ll_cache_rejects_push_past_limit_and_recovers_after_unset() {
    let mut cache: LLCache<u32> = LLCache::with_limit(2);
    assert_eq!(cache.limit(), Some(2));
    assert_eq!(cache.try_push(10), Ok(()));
    assert_eq!(cache.try_push(20), Ok(()));
    assert_eq!(cache.occupancy(), 2);
    assert_eq!(cache.try_push(30), Err(OccupancyError::ReachedMaxOccupancy(2)));
    assert_eq!(cache.occupancy(), 2);
    assert_eq!(cache.unset_limit(), Some(2));
    assert_eq!(cache.limit(), None);
    assert_eq!(cache.try_push(30), Ok(()));
    assert_eq!(cache.occupancy(), 3);
}

#[test]
fn ll_cache_unlimited_accepts_many_pushes() {
    let mut cache: LLCache<u32> = LLCache::new();
    for i in 0..50 {
        assert_eq!(cache.try_push(i), Ok(()));
    }
    assert_eq!(cache.occupancy(), 50);
    assert!(!cache.is_empty());
}

#[test]
fn both_caches_report_same_admission_decisions() {
    let mut vec_cache: VecCache<u8> = VecCache::with_limit(1);
    let mut ll_cache: LLCache<u8> = LLCache::with_limit(1);
    assert_eq!(vec_cache.try_push(1), ll_cache.try_push(1));
    assert_eq!(vec_cache.try_push(2), ll_cache.try_push(2));
    assert_eq!(vec_cache.occupancy(), ll_cache.occupancy());
}
