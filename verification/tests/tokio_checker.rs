use interruptible_polling::exit::{ExitTracker, ExitWait, StopStep};
use interruptible_polling::tokio::{running_unless_cancelled, signal_stop, TaskChecker};
use std::time::Duration;
use tokio_util::sync::CancellationToken;

#[test]
fn running_is_negation_of_cancelled() {
    assert!(running_unless_cancelled(false));
    assert!(!running_unless_cancelled(true));
}

#[test]
fn checker_reports_running_until_cancelled() {
    let token = CancellationToken::new();
    let checker = TaskChecker::new(token.clone());
    assert!(checker.is_running());
    let copy = checker.clone();
    token.cancel();
    assert!(!checker.is_running());
    assert!(!copy.is_running());
}

#[test]
fn signal_stop_cancels_token_once() {
    let token = CancellationToken::new();
    let checker = TaskChecker::new(token.clone());
    let wait = ExitWait::WaitAtMost(Duration::from_millis(100));
    let mut tracker = ExitTracker::new(wait);
    assert_eq!(signal_stop(&mut tracker, &token), StopStep::Signal(wait));
    assert!(token.is_cancelled());
    assert!(!checker.is_running());
    assert_eq!(signal_stop(&mut tracker, &token), StopStep::AlreadyStopped);
}
