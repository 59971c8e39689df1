use interruptible_polling::interval::{
    adopt_interval, apply_new_interval_if_exists, interval_from_millis, interval_millis,
    new_intervals, store_polling_rate, PendingRate,
};
use std::sync::atomic::{AtomicU64, Ordering::SeqCst};
use std::sync::Arc;
use std::time::Duration;

#[test]
fn millis_of_whole_and_fractional_intervals() {
    assert_eq!(interval_millis(Duration::from_millis(1500)), Ok(1500));
    assert_eq!(interval_millis(Duration::new(1, 999_999)), Ok(1000));
    assert_eq!(interval_millis(Duration::from_secs(5000)), Ok(5_000_000));
    assert_eq!(interval_millis(Duration::from_nanos(999_999)), Ok(0));
}

#[test]
fn millis_overflow_is_refused() {
    assert!(interval_millis(Duration::MAX).is_err());
    assert!(interval_millis(Duration::from_secs(u64::MAX / 1000 + 1)).is_err());
    assert_eq!(
        interval_millis(Duration::from_millis(u64::MAX)),
        Ok(u64::MAX)
    );
}

#[test]
fn from_millis_round_trip() {
    assert_eq!(interval_from_millis(250), Duration::from_millis(250));
    assert_eq!(interval_millis(interval_from_millis(42)), Ok(42));
}

#[test]
fn adopt_interval_replaces_different_value() {
    let mut inner = Duration::from_millis(1);
    adopt_interval(&mut inner, 5000);
    assert_eq!(inner, Duration::from_secs(5));
    adopt_interval(&mut inner, 5000);
    assert_eq!(inner, Duration::from_secs(5));
    adopt_interval(&mut inner, 0);
    assert_eq!(inner, Duration::ZERO);
}

#[test]
fn apply_new_interval_reads_shared_value() {
    let shared = Arc::new(AtomicU64::new(70));
    let mut inner = Duration::from_millis(10);
    apply_new_interval_if_exists(&mut inner, &shared);
    assert_eq!(inner, Duration::from_millis(70));
    shared.store(9, SeqCst);
    apply_new_interval_if_exists(&mut inner, &shared);
    assert_eq!(inner, Duration::from_millis(9));
}

#[test]
fn new_intervals_share_one_store() {
    let (a, b) = new_intervals(Duration::from_millis(12)).unwrap();
    assert_eq!(a.load(SeqCst), 12);
    a.store(30, SeqCst);
    assert_eq!(b.load(SeqCst), 30);
    assert!(new_intervals(Duration::MAX).is_err());
}

#[test]
fn store_polling_rate_stores_or_refuses() {
    let shared = AtomicU64::new(1);
    assert_eq!(store_polling_rate(&shared, Duration::from_secs(5)), Ok(()));
    assert_eq!(shared.load(SeqCst), 5000);
    assert!(store_polling_rate(&shared, Duration::MAX).is_err());
    assert_eq!(shared.load(SeqCst), 5000);
}

#[test]
fn last_accepted_rate_wins() {
    let shared = AtomicU64::new(7);
    assert_eq!(store_polling_rate(&shared, Duration::from_millis(40)), Ok(()));
    assert!(store_polling_rate(&shared, Duration::MAX).is_err());
    assert_eq!(shared.load(SeqCst), 40);
    assert_eq!(store_polling_rate(&shared, Duration::new(2, 500_000)), Ok(()));
    assert_eq!(shared.load(SeqCst), 2000);
    let mut inner = Duration::from_millis(1);
    apply_new_interval_if_exists(&mut inner, &Arc::new(AtomicU64::new(shared.load(SeqCst))));
    assert_eq!(inner, Duration::from_secs(2));
}

#[test]
fn pending_rate_last_accepted_request_wins() {
    let mut rate = PendingRate::new(Duration::from_millis(10)).unwrap();
    assert_eq!(rate.millis(), 10);
    assert_eq!(rate.interval(), Duration::from_millis(10));
    assert_eq!(rate.set(Duration::from_millis(0)), Ok(()));
    assert_eq!(rate.interval(), Duration::ZERO);
    assert!(rate.set(Duration::MAX).is_err());
    assert_eq!(rate.millis(), 0);
    assert_eq!(rate.set(Duration::new(1000000, 999_999)), Ok(()));
    assert_eq!(rate.millis(), 1_000_000_000);
    assert_eq!(rate.interval(), Duration::from_secs(1000000));
    assert!(PendingRate::new(Duration::MAX).is_err());
}
