use portable_atomic::{AtomicU64, Ordering};
use threadid::counter::advance;
use threadid::locals::CacheSlot;
use threadid::{IThreadId, IdError, UniqueThreadId};

#[test]
fn counter_advances_by_one() {
    assert_eq!(advance(1), Some(2));
    assert_eq!(advance(0), Some(1));
    assert_eq!(advance(u64::MAX - 1), Some(u64::MAX));
    assert_eq!(advance(u64::MAX), None);
}

#[test]
fn draws_count_up_from_the_start() {
    let counter = AtomicU64::new(1);
    for expected in 1..=20u64 {
        assert_eq!(UniqueThreadId::allocate(&counter).unwrap().to_int(), expected);
    }
    assert_eq!(counter.load(Ordering::SeqCst), 21);
}

#[test]
fn issue_takes_the_replaced_value() {
    assert_eq!(UniqueThreadId::issue(Ok(7)).unwrap().to_int(), 7);
    assert_eq!(UniqueThreadId::issue(Ok(u64::MAX - 1)).unwrap().to_int(), u64::MAX - 1);
    assert_eq!(UniqueThreadId::issue(Ok(0)), Err(IdError::InvalidCounter));
    assert_eq!(UniqueThreadId::issue(Err(u64::MAX)), Err(IdError::Exhausted));
}

#[test]
fn used_up_counter_is_exhausted_and_stays_put() {
    let counter = AtomicU64::new(u64::MAX - 1);
    assert_eq!(UniqueThreadId::allocate(&counter).unwrap().to_int(), u64::MAX - 1);
    assert_eq!(UniqueThreadId::allocate(&counter), Err(IdError::Exhausted));
    assert_eq!(UniqueThreadId::allocate(&counter), Err(IdError::Exhausted));
    assert_eq!(counter.load(Ordering::SeqCst), u64::MAX);
}

#[test]
fn counter_at_zero_is_invalid() {
    let counter = AtomicU64::new(0);
    assert_eq!(UniqueThreadId::allocate(&counter), Err(IdError::InvalidCounter));
    assert_eq!(UniqueThreadId::allocate(&counter).unwrap().to_int(), 1);
}

#[test]
fn conversion_to_u64_gives_the_integer_value() {
    let counter = AtomicU64::new(12);
    let id = UniqueThreadId::allocate(&counter).unwrap();
    assert_eq!(u64::from(id), 12);
    assert_eq!(u64::from(UniqueThreadId::from_int(u64::MAX)), u64::MAX);
}

#[test]
fn equal_values_are_equal_identifiers() {
    assert_eq!(UniqueThreadId::from_int(7), UniqueThreadId::from_int(7));
    assert_ne!(UniqueThreadId::from_int(7), UniqueThreadId::from_int(8));
}

#[test]
fn from_int_inverts_to_int() {
    let counter = AtomicU64::new(41);
    let id = UniqueThreadId::allocate(&counter).unwrap();
    assert_eq!(UniqueThreadId::from_int(id.to_int()), id);
    assert_eq!(UniqueThreadId::from_int(9).to_int(), 9);
}

#[test]
fn current_draws_once_per_slot() {
    let counter = AtomicU64::new(1);
    let mut slot = CacheSlot::new();
    let first = UniqueThreadId::current(&mut slot, &counter).unwrap();
    assert_eq!(first.to_int(), 1);
    assert_eq!(slot.get(), Some(first));
    for _ in 0..4 {
        assert_eq!(UniqueThreadId::current(&mut slot, &counter), Ok(first));
    }
    assert_eq!(counter.load(Ordering::SeqCst), 2);
    let mut other = CacheSlot::new();
    assert_eq!(UniqueThreadId::current(&mut other, &counter).unwrap().to_int(), 2);
}

#[test]
fn failed_request_leaves_the_slot_empty() {
    let counter = AtomicU64::new(u64::MAX);
    let mut slot = CacheSlot::new();
    assert_eq!(UniqueThreadId::current(&mut slot, &counter), Err(IdError::Exhausted));
    assert_eq!(slot.get(), None);
}

#[test]
fn trait_request_equals_inherent_request() {
    let mut counter: &'static AtomicU64 = Box::leak(Box::new(AtomicU64::new(5)));
    let mut slot = CacheSlot::new();
    let id = <UniqueThreadId as IThreadId>::current(&mut slot, &mut counter).unwrap();
    assert_eq!(id.to_int(), 5);
    assert_eq!(threadid::current::<UniqueThreadId>(&mut slot, &mut counter), Ok(id));
    assert_eq!(UniqueThreadId::current(&mut slot, counter), Ok(id));
}

#[test]
fn unique_identifiers_are_ordered_and_printable() {
    let counter = AtomicU64::new(3);
    let a = UniqueThreadId::allocate(&counter).unwrap();
    let b = UniqueThreadId::allocate(&counter).unwrap();
    assert!(a < b && b > a && a <= a && !(b < a) && !(a < a));
    assert_eq!(a.max(b), b);
    assert_ne!(a, b);
    assert_eq!(format!("{:?}", a), "UniqueThreadId(3)");
}
