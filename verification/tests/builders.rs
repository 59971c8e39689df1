use interruptible_polling::exit::ExitWait;
use interruptible_polling::poll_loop::IntervalSource;
use interruptible_polling::sync;
use interruptible_polling::sync2;
use interruptible_polling::tokio as tokio_polling;
use std::time::Duration;

#[test]
fn sync_builder_defaults_to_no_wait() {
    assert_eq!(sync::PollingTaskBuilder::new().exit_wait(), ExitWait::NoWait);
    assert_eq!(sync::PollingTaskBuilder::default().exit_wait(), ExitWait::NoWait);
}

#[test]
fn sync_builder_wait_for_clean_exit() {
    let b = sync::PollingTaskBuilder::new().wait_for_clean_exit(None);
    assert_eq!(b.exit_wait(), ExitWait::WaitForever);
    let b = sync::PollingTaskBuilder::new().wait_for_clean_exit(Some(Duration::from_secs(2)));
    assert_eq!(b.exit_wait(), ExitWait::WaitAtMost(Duration::from_secs(2)));
}

#[test]
fn sync2_builder_keeps_interval() {
    let b = sync2::PollingTaskBuilder::new(Duration::from_millis(5000));
    assert_eq!(b.interval(), Duration::from_millis(5000));
    assert_eq!(b.exit_wait(), ExitWait::NoWait);
    let b = b.wait_for_clean_exit(Some(Duration::from_millis(20)));
    assert_eq!(b.interval(), Duration::from_millis(5000));
    assert_eq!(b.exit_wait(), ExitWait::WaitAtMost(Duration::from_millis(20)));
    assert_eq!(b.fixed_source(), IntervalSource::Fixed(Duration::from_millis(5000)));
    assert_eq!(
        b.self_updating_source(),
        IntervalSource::SelfUpdating(Duration::from_millis(5000))
    );
    let b = sync2::PollingTaskBuilder::new(Duration::from_millis(0)).wait_for_clean_exit(None);
    assert_eq!(b.exit_wait(), ExitWait::WaitForever);
}

#[test]
fn tokio_builder_tracking() {
    let b = tokio_polling::PollingTaskBuilder::new(Duration::from_millis(1));
    assert_eq!(b.exit_wait(), ExitWait::NoWait);
    assert_eq!(b.interval(), Duration::from_millis(1));
    let b = b.track_for_clean_exit_within(Duration::from_millis(300));
    assert_eq!(b.exit_wait(), ExitWait::WaitAtMost(Duration::from_millis(300)));
    assert_eq!(b.interval(), Duration::from_millis(1));
    assert_eq!(b.fixed_source(), IntervalSource::Fixed(Duration::from_millis(1)));
    assert_eq!(
        b.self_updating_source(),
        IntervalSource::SelfUpdating(Duration::from_millis(1))
    );
}
