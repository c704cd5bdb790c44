use lorenz_sim::lifecycle::{LifecycleManager, MAX_AGE_MILLIS};
use lorenz_sim::queue::TimedQueue;

#[test]
fn eviction_boundary_is_inclusive() {
    let mut q = TimedQueue::new();
    q.register(7, 1_000);
    // One millisecond short of the age budget: still present.
    let early = q.evict_expired(1_000 + MAX_AGE_MILLIS - 1, MAX_AGE_MILLIS);
    assert!(early.is_empty());
    assert_eq!(q.len(), 1);
    // Exactly at the boundary: evicted.
    let at_boundary = q.evict_expired(1_000 + MAX_AGE_MILLIS, MAX_AGE_MILLIS);
    assert_eq!(at_boundary, vec![7]);
    assert_eq!(q.len(), 0);
}

#[test]
fn eviction_takes_only_a_prefix() {
    let mut q = TimedQueue::new();
    q.register(1, 0);
    q.register(2, 10_000);
    q.register(3, 20_000);
    let evicted = q.evict_expired(15_000, MAX_AGE_MILLIS);
    assert_eq!(evicted, vec![1]);
    assert_eq!(q.len(), 2);
    assert_eq!(q.entry_at(0), (2, 10_000));
    assert_eq!(q.entry_at(1), (3, 20_000));
    let rest = q.evict_expired(40_000, MAX_AGE_MILLIS);
    assert_eq!(rest, vec![2, 3]);
    assert_eq!(q.len(), 0);
}

#[test]
fn eviction_keeps_fifo_order() {
    let mut q = TimedQueue::new();
    for h in 0..5u64 {
        q.register(h, h * 100);
    }
    let evicted = q.evict_expired(20_000, MAX_AGE_MILLIS);
    assert_eq!(evicted, vec![0, 1, 2, 3, 4]);
}

#[test]
fn eviction_with_zero_age_takes_everything_registered() {
    let mut q = TimedQueue::new();
    q.register(10, 5);
    q.register(11, 5);
    let evicted = q.evict_expired(5, 0);
    assert_eq!(evicted, vec![10, 11]);
}

#[test]
fn eviction_on_empty_queue_returns_nothing() {
    let mut q = TimedQueue::new();
    let evicted = q.evict_expired(1_000_000, MAX_AGE_MILLIS);
    assert!(evicted.is_empty());
}

#[test]
fn manager_unions_seed_queue_first() {
    let mut m = LifecycleManager::new();
    m.register_seed(1, 0);
    m.register_seed(2, 0);
    m.register_advancement(3, 0);
    m.register_advancement(4, 100);
    assert_eq!(m.seed_queue_len(), 2);
    assert_eq!(m.advance_queue_len(), 2);
    let evicted = m.evict_expired(MAX_AGE_MILLIS, MAX_AGE_MILLIS);
    assert_eq!(evicted, vec![1, 2, 3]);
    assert_eq!(m.seed_queue_len(), 0);
    assert_eq!(m.advance_queue_len(), 1);
}

#[test]
fn manager_registers_batches_in_order() {
    let mut m = LifecycleManager::new();
    let handles = vec![5, 6, 7];
    m.register_advancements(&handles, 50);
    assert_eq!(m.advance_queue_len(), 3);
    let evicted = m.evict_expired(50 + MAX_AGE_MILLIS, MAX_AGE_MILLIS);
    assert_eq!(evicted, vec![5, 6, 7]);
}
