use cache_register::multi::limit::{OccupancyError, OccupancyLimit};
use std::cmp::Ordering;

#[test]
fn unlimited_compares_greater_than_every_limit() {
    for n in [0usize, 1, 2, 17, usize::MAX] {
        assert!(OccupancyLimit::Unlimited > OccupancyLimit::Limited(n));
        assert!(OccupancyLimit::Limited(n) < OccupancyLimit::Unlimited);
        assert_eq!(
            OccupancyLimit::Unlimited.partial_cmp(&OccupancyLimit::Limited(n)),
            Some(Ordering::Greater)
        );
    }
}

#[test]
fn limited_values_order_numerically() {
    assert!(OccupancyLimit::Limited(1) < OccupancyLimit::Limited(2));
    assert!(OccupancyLimit::Limited(2) > OccupancyLimit::Limited(1));
    assert_eq!(
        OccupancyLimit::Limited(3).partial_cmp(&OccupancyLimit::Limited(3)),
        Some(Ordering::Equal)
    );
    assert_eq!(
        OccupancyLimit::Limited(3).cmp(&OccupancyLimit::Unlimited),
        Ordering::Less
    );
    assert_eq!(
        OccupancyLimit::Unlimited.cmp(&OccupancyLimit::Unlimited),
        Ordering::Equal
    );
}

#[test]
fn limited_equals_exactly_its_raw_count() {
    for n in [0usize, 1, 5, 100] {
        assert!(OccupancyLimit::Limited(n) == n);
        assert!(OccupancyLimit::Limited(n) != n.wrapping_add(1));
        assert!(OccupancyLimit::Unlimited != n);
    }
}

#[test]
fn raw_count_comparison_treats_unlimited_as_greater() {
    assert_eq!(
        OccupancyLimit::Unlimited.partial_cmp(&usize::MAX),
        Some(Ordering::Greater)
    );
    assert_eq!(OccupancyLimit::Limited(2).partial_cmp(&3), Some(Ordering::Less));
    assert_eq!(OccupancyLimit::Limited(3).partial_cmp(&3), Some(Ordering::Equal));
    assert_eq!(
        OccupancyLimit::Limited(4).partial_cmp(&3),
        Some(Ordering::Greater)
    );
}

#[test]
fn default_limit_is_unlimited() {
    assert_eq!(OccupancyLimit::default(), OccupancyLimit::Unlimited);
}

#[test]
fn is_zero_only_for_limited_zero() {
    assert!(OccupancyLimit::Limited(0).is_zero());
    assert!(!OccupancyLimit::Limited(1).is_zero());
    assert!(!OccupancyLimit::Unlimited.is_zero());
}

#[test]
fn get_maps_limited_to_some() {
    assert_eq!(OccupancyLimit::Limited(4).get(), Some(4));
    assert_eq!(OccupancyLimit::Unlimited.get(), None);
}

#[test]
fn get_unchecked_reads_the_raw_limit() {
    assert_eq!(OccupancyLimit::Limited(6).get_unchecked(), 6);
}

#[test]
fn unset_limit_returns_previous_limit() {
    let mut limit = OccupancyLimit::Limited(8);
    assert_eq!(limit.unset_limit(), Some(8));
    assert_eq!(limit, OccupancyLimit::Unlimited);
    assert_eq!(limit.unset_limit(), None);
    assert_eq!(limit, OccupancyLimit::Unlimited);
}

#[test]
fn set_limit_overwrites_any_state() {
    let mut limit = OccupancyLimit::Unlimited;
    limit.set_limit(3);
    assert_eq!(limit, OccupancyLimit::Limited(3));
    limit.set_limit(0);
    assert_eq!(limit, OccupancyLimit::Limited(0));
}

#[test]
fn replace_limit_returns_previous_numeric_value() {
    let mut limit = OccupancyLimit::Unlimited;
    assert_eq!(limit.replace_limit(5), None);
    assert_eq!(limit, OccupancyLimit::Limited(5));
    assert_eq!(limit.replace_limit(9), Some(5));
    assert_eq!(limit, OccupancyLimit::Limited(9));
}

#[test]
fn get_mut_gives_access_to_the_limit() {
    let mut limit = OccupancyLimit::Limited(2);
    if let Some(value) = limit.get_mut() {
        *value = 10;
    } else {
        panic!("expected a limited descriptor");
    }
    assert_eq!(limit, OccupancyLimit::Limited(10));
    let mut unlimited = OccupancyLimit::Unlimited;
    assert!(unlimited.get_mut().is_none());
    assert_eq!(unlimited, OccupancyLimit::Unlimited);
}

#[test]
fn get_mut_unchecked_writes_through() {
    let mut limit = OccupancyLimit::Limited(2);
    *limit.get_mut_unchecked() = 7;
    assert_eq!(limit, OccupancyLimit::Limited(7));
}

#[test]
fn get_mut_or_initializes_unlimited_descriptor() {
    let mut limit = OccupancyLimit::Unlimited;
    assert_eq!(*limit.get_mut_or(3), 3);
    assert_eq!(limit, OccupancyLimit::Limited(3));
    assert_eq!(*limit.get_mut_or(8), 3);
    assert_eq!(limit, OccupancyLimit::Limited(3));
}

#[test]
fn get_mut_or_reference_writes_back() {
    let mut limit = OccupancyLimit::Limited(1);
    *limit.get_mut_or(99) = 4;
    assert_eq!(limit, OccupancyLimit::Limited(4));
}

#[test]
fn zero_occupancy_error_message() {
    assert_eq!(
        OccupancyError::ZeroMaxOccupancy.message(),
        "occupancy error: maximum occupancy is currently set to 0"
    );
}

#[test]
fn reached_occupancy_error_message_includes_limit() {
    assert_eq!(
        OccupancyError::ReachedMaxOccupancy(42).message(),
        "occupancy error: cache has reached its maximum occupancy of 42"
    );
    assert_eq!(
        OccupancyError::ReachedMaxOccupancy(0).message(),
        "occupancy error: cache has reached its maximum occupancy of 0"
    );
    assert_eq!(
        OccupancyError::ReachedMaxOccupancy(1000).message(),
        "occupancy error: cache has reached its maximum occupancy of 1000"
    );
}

#[test]
fn occupancy_errors_are_distinguishable() {
    let zero = OccupancyError::ZeroMaxOccupancy;
    let reached = OccupancyError::ReachedMaxOccupancy(3);
    assert_ne!(zero, reached);
    match reached {
        OccupancyError::ReachedMaxOccupancy(n) => assert_eq!(n, 3),
        OccupancyError::ZeroMaxOccupancy => panic!("wrong variant"),
    }
}
