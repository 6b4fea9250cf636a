use robot_framework_rust::{
    MemoryMonitor, MemoryPool, RingBuffer, RobotError, StringInterner, TrackedBox, NAME, VERSION,
};
use robot_framework_rust::time::{Duration, Rate, Time};

#[test]
fn test_version() {
    assert!(!VERSION.is_empty());
    assert!(!NAME.is_empty());
}

#[test]
fn time_now_is_normalized() {
    let now = Time::now();
    assert!(now.nsec < 1_000_000_000);
    assert!(now.sec >= 0);
}

#[test]
fn duration_conversions_exact() {
    let d = Duration::from_millis(1500);
    assert_eq!(d.sec, 1);
    assert_eq!(d.nsec, 500_000_000);
    let d = Duration::from_micros(2_000_003);
    assert_eq!(d.sec, 2);
    assert_eq!(d.nsec, 3_000);
    let d = Duration::from_nanos(1_000_000_001);
    assert_eq!(d.sec, 1);
    assert_eq!(d.nsec, 1);
    let d = Duration::from_secs(7);
    assert_eq!(d.sec, 7);
    assert_eq!(d.nsec, 0);
    assert_eq!(Duration::new(1, 250_000_000).as_millis(), 1250);
    assert_eq!(Duration::new(1, 250_000_000).as_micros(), 1_250_000);
    assert_eq!(Duration::new(1, 250_000_000).as_nanos(), 1_250_000_000);
    assert!(Duration::new(0, 0).is_zero());
    assert!(!Duration::new(0, 1).is_zero());
}

#[test]
fn time_arithmetic_exact() {
    let t = Time::new(10, 800_000_000);
    let u = t.add_duration(Duration::new(1, 300_000_000));
    assert_eq!(u.sec, 12);
    assert_eq!(u.nsec, 100_000_000);
    let v = u.sub_duration(Duration::new(0, 200_000_000));
    assert_eq!(v.sec, 11);
    assert_eq!(v.nsec, 900_000_000);
    let w = v.sub_duration(Duration::new(1, 0));
    assert_eq!(w.sec, 10);
    assert_eq!(w.nsec, 900_000_000);
}

#[test]
fn duration_addition_and_saturating_subtraction() {
    let a = Duration::new(1, 600_000_000);
    let b = Duration::new(2, 700_000_000);
    let sum = a.add_duration(b);
    assert_eq!(sum.sec, 4);
    assert_eq!(sum.nsec, 300_000_000);
    let diff = b.sub_duration(a);
    assert_eq!(diff.sec, 1);
    assert_eq!(diff.nsec, 100_000_000);
    let borrowed = Duration::new(2, 100_000_000).sub_duration(Duration::new(1, 600_000_000));
    assert_eq!(borrowed.sec, 0);
    assert_eq!(borrowed.nsec, 500_000_000);
    // Subtracting the longer duration stops at zero.
    let clamped = a.sub_duration(b);
    assert!(clamped.is_zero());
}

#[test]
fn duration_since_orders_times() {
    let early = Time::new(5, 100);
    let late = Time::new(7, 50);
    let d = late.duration_since(early).unwrap();
    assert_eq!(d.sec, 2);
    // The nanosecond part borrows without carrying into the seconds.
    assert_eq!(d.nsec, 1_000_000_000 + 50 - 100);
    let err = early.duration_since(late);
    assert!(matches!(err, Err(RobotError::Time(_))));
}

#[test]
fn rate_records_period_and_marks() {
    let mut rate = Rate::with_period(Duration::from_millis(100));
    assert_eq!(rate.period().as_millis(), 100);
    assert!(rate.last_time.is_none());
    rate.mark(Time::new(3, 0));
    assert_eq!(rate.last_time, Some(Time::new(3, 0)));
    rate.reset();
    assert!(rate.last_time.is_none());
}

#[test]
fn memory_pool_reuses_lifo() {
    let mut pool: MemoryPool<u64> = MemoryPool::new(2);
    assert_eq!(pool.get(), 0); // empty pool hands out the default
    pool.put(11);
    pool.put(22);
    pool.put(33); // beyond capacity: dropped
    assert_eq!(pool.get(), 22);
    assert_eq!(pool.get(), 11);
    assert_eq!(pool.get(), 0);
}

#[test]
fn ring_buffer_wraps_and_evicts_oldest() {
    let mut rb: RingBuffer<u32> = RingBuffer::new(3);
    assert!(rb.is_empty());
    assert_eq!(rb.push(1), None);
    assert_eq!(rb.push(2), None);
    assert_eq!(rb.push(3), None);
    assert_eq!(rb.len(), 3);
    assert_eq!(rb.push(4), Some(1)); // full: the oldest leaves
    assert_eq!(rb.len(), 3);
    assert_eq!(rb.pop(), Some(2));
    assert_eq!(rb.pop(), Some(3));
    assert_eq!(rb.pop(), Some(4));
    assert_eq!(rb.pop(), None);
    assert!(rb.is_empty());
}

#[test]
fn memory_monitor_tracks_peak() {
    let mut monitor = MemoryMonitor::new();
    monitor.record_allocation(100).unwrap();
    monitor.record_allocation(50).unwrap();
    monitor.record_deallocation(120).unwrap();
    monitor.record_allocation(10).unwrap();
    let usage = monitor.get_usage().unwrap();
    assert_eq!(usage.total_allocated, 160);
    assert_eq!(usage.current_usage, 40);
    assert_eq!(usage.peak_usage, 150);
    assert_eq!(usage.allocation_count, 3);
    assert_eq!(usage.deallocation_count, 1);
    // Deallocating more than is in use stops at zero.
    monitor.record_deallocation(1000).unwrap();
    assert_eq!(monitor.get_usage().unwrap().current_usage, 0);
}

#[test]
fn string_interner_names_each_string_once() {
    let mut interner = StringInterner::new();
    let a = interner.intern("alpha");
    let b = interner.intern("beta");
    let a2 = interner.intern("alpha");
    assert_eq!(a, a2);
    assert_ne!(a, b);
    assert_eq!(interner.get(a).unwrap().as_str(), "alpha");
    assert_eq!(interner.get(b).unwrap().as_str(), "beta");
    assert!(interner.get(99).is_none());
}

#[test]
fn error_variants_carry_their_message() {
    let errors = vec![
        RobotError::Config("c".to_string()),
        RobotError::Node("n".to_string()),
        RobotError::Message("m".to_string()),
        RobotError::Service("s".to_string()),
        RobotError::Memory("mem".to_string()),
        RobotError::Time("t".to_string()),
        RobotError::Transform("tf".to_string()),
        RobotError::Action("a".to_string()),
        RobotError::Logging("l".to_string()),
        RobotError::Debug("d".to_string()),
        RobotError::Visualization("v".to_string()),
        RobotError::Profiling("p".to_string()),
        RobotError::Io("io".to_string()),
        RobotError::Serialization("ser".to_string()),
        RobotError::Other("o".to_string()),
    ];
    let expected = vec![
        "c", "n", "m", "s", "mem", "t", "tf", "a", "l", "d", "v", "p", "io", "ser", "o",
    ];
    for (e, want) in errors.iter().zip(expected.iter()) {
        assert_eq!(e.message(), *want);
        assert_eq!(e.clone().message(), *want);
    }
}

#[test]
fn tracked_box_accounts_its_footprint() {
    let mut monitor = MemoryMonitor::new();
    let boxed = TrackedBox::new(42u64, &mut monitor).unwrap();
    assert_eq!(*boxed.get(), 42);
    assert_eq!(boxed.size, std::mem::size_of::<u64>());
    let usage = monitor.get_usage().unwrap();
    assert_eq!(usage.current_usage, 8);
    assert_eq!(usage.allocation_count, 1);
    let value = boxed.release(&mut monitor);
    assert_eq!(value, 42);
    let usage = monitor.get_usage().unwrap();
    assert_eq!(usage.current_usage, 0);
    assert_eq!(usage.deallocation_count, 1);
    assert_eq!(usage.peak_usage, 8);
}
