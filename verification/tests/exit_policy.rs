use interruptible_polling::error::CancelPollingTaskTimeout;
use interruptible_polling::exit::{bounded_wait, cancel_outcome, exit_wait, ExitTracker, ExitWait, StopStep};
use interruptible_polling::sync::common::{join_outcome, JoinError};
use interruptible_polling::tokio::common::{
    join_outcome as async_join_outcome, JoinError as AsyncJoinError,
};
use std::time::Duration;

#[test]
fn default_exit_policy_does_not_wait() {
    assert_eq!(exit_wait(false, None), ExitWait::NoWait);
    assert_eq!(exit_wait(false, Some(Duration::from_secs(3))), ExitWait::NoWait);
}

#[test]
fn clean_exit_policy_waits() {
    assert_eq!(exit_wait(true, None), ExitWait::WaitForever);
    assert_eq!(
        exit_wait(true, Some(Duration::from_millis(250))),
        ExitWait::WaitAtMost(Duration::from_millis(250))
    );
}

#[test]
fn first_stop_signals_with_policy() {
    let wait = ExitWait::WaitAtMost(Duration::from_millis(100));
    let mut tracker = ExitTracker::new(wait);
    assert!(!tracker.stop_sent());
    assert_eq!(tracker.policy(), wait);
    assert_eq!(tracker.request_stop(), StopStep::Signal(wait));
    assert!(tracker.stop_sent());
}

#[test]
fn second_stop_is_silent() {
    let mut tracker = ExitTracker::new(ExitWait::WaitAtMost(Duration::from_millis(100)));
    let first = tracker.request_stop();
    assert_eq!(cancel_outcome(first, false), Err(CancelPollingTaskTimeout));
    let second = tracker.request_stop();
    assert_eq!(second, StopStep::AlreadyStopped);
    assert_eq!(cancel_outcome(second, false), Ok(()));
    assert_eq!(tracker.policy(), ExitWait::WaitAtMost(Duration::from_millis(100)));
}

#[test]
fn timeout_error_only_for_bounded_wait_without_reply() {
    let bounded = StopStep::Signal(ExitWait::WaitAtMost(Duration::from_secs(1)));
    assert_eq!(cancel_outcome(bounded, true), Ok(()));
    assert_eq!(cancel_outcome(bounded, false), Err(CancelPollingTaskTimeout));
    assert_eq!(cancel_outcome(StopStep::Signal(ExitWait::WaitForever), false), Ok(()));
    assert_eq!(cancel_outcome(StopStep::Signal(ExitWait::NoWait), false), Ok(()));
    assert_eq!(cancel_outcome(StopStep::AlreadyStopped, false), Ok(()));
}

#[test]
fn join_timeout_error() {
    let bounded = StopStep::Signal(ExitWait::WaitAtMost(Duration::from_secs(1)));
    assert_eq!(join_outcome(bounded, false), Err(JoinError::Timeout));
    assert_eq!(join_outcome(bounded, true), Ok(()));
    assert_eq!(join_outcome(StopStep::Signal(ExitWait::WaitForever), false), Ok(()));
    assert_eq!(async_join_outcome(bounded, false), Err(AsyncJoinError::Timeout));
    assert_eq!(async_join_outcome(StopStep::AlreadyStopped, false), Ok(()));
}

#[test]
fn error_messages() {
    assert_eq!(
        CancelPollingTaskTimeout.message(),
        "Timed out waiting for polling task to signal exit"
    );
    assert_eq!(
        JoinError::Timeout.message(),
        "Timed out waiting for the polling thread to exit"
    );
    assert_eq!(
        AsyncJoinError::Timeout.message(),
        "Timed out waiting for the polling thread to exit"
    );
}

#[test]
fn bounded_wait_only_for_timeouts() {
    let t = Duration::from_millis(300);
    assert_eq!(bounded_wait(StopStep::Signal(ExitWait::WaitAtMost(t))), Some(t));
    assert_eq!(bounded_wait(StopStep::Signal(ExitWait::WaitForever)), None);
    assert_eq!(bounded_wait(StopStep::Signal(ExitWait::NoWait)), None);
    assert_eq!(bounded_wait(StopStep::AlreadyStopped), None);
}
