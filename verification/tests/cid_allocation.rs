//! The CID allocator and its persisted decimal counter.

use virtualizationservice::cid::{CidAllocator, FIRST_GUEST_CID};
use virtualizationservice::decimal::{parse_u32_decimal, u32_to_decimal};
use virtualizationservice::errors::ErrorKind;

#[test]
fn first_allocation_without_a_persisted_counter() {
    let mut allocator = CidAllocator::new(None);
    assert_eq!(FIRST_GUEST_CID, allocator.next().unwrap());
    assert_eq!(Some("10".to_string()), *allocator.persisted());
}

#[test]
fn allocations_are_strictly_increasing() {
    let mut allocator = CidAllocator::new(None);
    let a = allocator.next().unwrap();
    let b = allocator.next().unwrap();
    let c = allocator.next().unwrap();
    assert!(a < b && b < c);
    assert_eq!(a + 1, b);
    assert_eq!(b + 1, c);
    // The persisted counter reflects the last issued value.
    assert_eq!(Some(c.to_string()), *allocator.persisted());
}

#[test]
fn allocation_continues_from_the_persisted_counter() {
    let mut allocator = CidAllocator::new(Some("41".to_string()));
    assert_eq!(42, allocator.next().unwrap());
    assert_eq!(Some("42".to_string()), *allocator.persisted());
}

#[test]
fn unparsable_counter_falls_back_to_the_first_guest() {
    let mut allocator = CidAllocator::new(Some("not-a-number".to_string()));
    assert_eq!(FIRST_GUEST_CID, allocator.next().unwrap());
}

#[test]
fn counter_exhaustion_is_reported() {
    let mut allocator = CidAllocator::new(Some(u32::MAX.to_string()));
    let err = allocator.next().unwrap_err();
    assert_eq!(ErrorKind::ResourceExhausted, err.kind);
    // The failed allocation left the counter as it was.
    assert_eq!(Some(u32::MAX.to_string()), *allocator.persisted());
}

#[test]
fn decimal_round_trips() {
    assert_eq!("0", u32_to_decimal(0));
    assert_eq!("4294967295", u32_to_decimal(u32::MAX));
    assert_eq!(Some(123), parse_u32_decimal("123"));
    assert_eq!(Some(u32::MAX), parse_u32_decimal("4294967295"));
    assert_eq!(None, parse_u32_decimal(""));
    assert_eq!(None, parse_u32_decimal("12a"));
    assert_eq!(None, parse_u32_decimal("-1"));
    assert_eq!(None, parse_u32_decimal("4294967296"));
    for n in [0u32, 1, 9, 10, 99, 100, 65535, 1000000007] {
        assert_eq!(Some(n), parse_u32_decimal(u32_to_decimal(n).as_str()));
    }
}
