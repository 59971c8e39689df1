//! Polling tasks that run on the tokio runtime, stopped through a
//! cancellation token.

pub mod common;

use crate::exit::{exit_wait, exit_wait_spec, ExitTracker, ExitWait, StopStep, stop_spec};
use crate::poll_loop::IntervalSource;
use std::time::Duration;
use tokio_util::sync::CancellationToken;
use vstd::prelude::*;

verus! {

/// `tokio_util::sync::CancellationToken`, carried as an opaque value.
#[verifier::external_type_specification]
#[verifier::external_body]
pub struct ExCancellationToken(CancellationToken);

/// `Clone for CancellationToken`: the clone shares the cloned token's
/// cancellation state. Nothing is stated: that state is not modelled.
pub assume_specification[ <CancellationToken as Clone>::clone ](token: &CancellationToken) -> CancellationToken;

/// `CancellationToken::cancel`: cancels the token and every clone of it.
/// Nothing is stated: the state it changes is shared with the clones.
#[verifier::external_body]
fn cancel_token(token: &CancellationToken) {
    token.cancel()
}

/// `CancellationToken::is_cancelled`: whether the token, or a clone of it, has
/// been cancelled. Nothing is stated of the result: it depends on what other
/// tasks have done with the shared token.
#[verifier::external_body]
fn token_is_cancelled(token: &CancellationToken) -> bool {
    token.is_cancelled()
}

/// Whether a task is still running, given whether its token was cancelled: it
/// runs until its owner cancels it.
pub fn running_unless_cancelled(cancelled: bool) -> (running: bool)
    ensures
        running == !cancelled,
{
    !cancelled
}

/// Lets the polling task check whether a request to exit was received
/// mid-execution, so that long or iterative work can end early.
#[derive(Clone)]
pub struct TaskChecker {
    cancellation_token: CancellationToken,
}

impl TaskChecker {
    /// A checker that watches the given token.
    pub fn new(cancellation_token: CancellationToken) -> (c: Self)
        ensures
            c.token() == cancellation_token,
    {
        TaskChecker { cancellation_token }
    }

    /// The token that the checker watches.
    pub closed spec fn token(self) -> CancellationToken {
        self.cancellation_token
    }

    /// Checks whether the polling task is still running: false once its owner
    /// has requested a clean exit, at which point the task should return as
    /// soon as it can.
    pub fn is_running(&self) -> (running: bool) {
        let cancelled = token_is_cancelled(&self.cancellation_token);
        running_unless_cancelled(cancelled)
    }
}

/// Records a request to stop the task and, when it is the first one, cancels
/// the task's token; says what the owner must wait for.
pub fn signal_stop(tracker: &mut ExitTracker, token: &CancellationToken) -> (step: StopStep)
    ensures
        (final(tracker)@, step) == stop_spec(old(tracker)@),
{
    let step = tracker.request_stop();
    match step {
        StopStep::Signal(_) => cancel_token(token),
        StopStep::AlreadyStopped => {},
    }
    step
}

/// Configures the interval of new polling tasks and how their handles track
/// the task's exit when cancelled or dropped.
pub struct PollingTaskBuilder {
    interval: Duration,
    timeout: Option<Duration>,
}

impl PollingTaskBuilder {
    /// The interval between polls (the first one, for a self-updating task).
    pub closed spec fn poll_interval(self) -> Duration {
        self.interval
    }

    /// The longest the handle waits for the exit confirmation, if it waits.
    pub closed spec fn exit_timeout(self) -> Option<Duration> {
        self.timeout
    }

    /// A builder for tasks polling at `interval`, whose handles do not track
    /// the task's exit.
    pub fn new(interval: Duration) -> (b: Self)
        ensures
            b.poll_interval() == interval,
            b.exit_timeout() is None,
    {
        PollingTaskBuilder { interval, timeout: None }
    }

    /// Configures the handle to track the exit of the task when cancelled or
    /// dropped, for at most `timeout`. Tracking does not block: without a
    /// timeout it could never end, so one must be given.
    pub fn track_for_clean_exit_within(self, timeout: Duration) -> (b: Self)
        ensures
            b.exit_timeout() == Some(timeout),
            b.poll_interval() == self.poll_interval(),
    {
        let mut b = self;
        b.timeout = Some(timeout);
        b
    }

    /// The exit policy that the handles made by this builder follow: no
    /// tracking, or tracking bounded by the timeout.
    pub fn exit_wait(&self) -> (w: ExitWait)
        ensures
            w == exit_wait_spec(self.exit_timeout() is Some, self.exit_timeout()),
    {
        let track = match self.timeout {
            Some(_) => true,
            None => false,
        };
        exit_wait(track, self.timeout)
    }

    /// The configured interval.
    pub fn interval(&self) -> (d: Duration)
        ensures
            d == self.poll_interval(),
    {
        self.interval
    }

    /// The interval source of a plain task: the configured interval after
    /// every run.
    pub fn fixed_source(&self) -> (src: IntervalSource)
        ensures
            src == IntervalSource::Fixed(self.poll_interval()),
    {
        IntervalSource::Fixed(self.interval)
    }

    /// The interval source of a self-updating task: the configured interval
    /// until a run of the task returns another.
    pub fn self_updating_source(&self) -> (src: IntervalSource)
        ensures
            src == IntervalSource::SelfUpdating(self.poll_interval()),
    {
        IntervalSource::SelfUpdating(self.interval)
    }
}

/// A tokio handle never waits without a bound: it either does not track the
/// exit, or tracks it for at most its timeout.
pub proof fn lemma_tracking_is_bounded(timeout: Option<Duration>)
    ensures
        exit_wait_spec(timeout is Some, timeout) != ExitWait::WaitForever,
        timeout matches Some(t) ==> exit_wait_spec(timeout is Some, timeout) == ExitWait::WaitAtMost(t),
        timeout is None ==> exit_wait_spec(timeout is Some, timeout) == ExitWait::NoWait,
{
}

} // verus!
