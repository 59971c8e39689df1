//! Polling tasks on a background thread whose interval is given to the builder.

use crate::exit::{exit_wait, exit_wait_spec, ExitWait};
use crate::poll_loop::IntervalSource;
use std::time::Duration;
use vstd::prelude::*;

verus! {

/// Configures the interval of new polling tasks and how their handles behave
/// when dropped.
pub struct PollingTaskBuilder {
    wait_for_clean_exit: bool,
    interval: Duration,
    timeout: Option<Duration>,
}

impl PollingTaskBuilder {
    /// Whether the handle waits for the task to confirm its exit.
    pub closed spec fn waits_for_clean_exit(self) -> bool {
        self.wait_for_clean_exit
    }

    /// The interval between polls (the first one, for a self-updating task).
    pub closed spec fn poll_interval(self) -> Duration {
        self.interval
    }

    /// The longest the handle waits for the exit confirmation, if bounded.
    pub closed spec fn exit_timeout(self) -> Option<Duration> {
        self.timeout
    }

    /// A builder for tasks polling at `interval`, whose handles move on
    /// without waiting for the task to exit.
    pub fn new(interval: Duration) -> (b: Self)
        ensures
            !b.waits_for_clean_exit(),
            b.poll_interval() == interval,
            b.exit_timeout() is None,
    {
        PollingTaskBuilder { wait_for_clean_exit: false, interval, timeout: None }
    }

    /// Configures the handle to wait, when dropped, until the background task
    /// confirms its exit: for at most `timeout` when one is given, without
    /// limit otherwise.
    pub fn wait_for_clean_exit(self, timeout: Option<Duration>) -> (b: Self)
        ensures
            b.waits_for_clean_exit(),
            b.exit_timeout() == timeout,
            b.poll_interval() == self.poll_interval(),
    {
        let mut b = self;
        b.timeout = timeout;
        b.wait_for_clean_exit = true;
        b
    }

    /// The exit policy that the handles made by this builder follow.
    pub fn exit_wait(&self) -> (w: ExitWait)
        ensures
            w == exit_wait_spec(self.waits_for_clean_exit(), self.exit_timeout()),
    {
        exit_wait(self.wait_for_clean_exit, self.timeout)
    }

    /// The configured interval.
    pub fn interval(&self) -> (d: Duration)
        ensures
            d == self.poll_interval(),
    {
        self.interval
    }

    /// The interval source of a plain task: the configured interval after
    /// every run.
    pub fn fixed_source(&self) -> (src: IntervalSource)
        ensures
            src == IntervalSource::Fixed(self.poll_interval()),
    {
        IntervalSource::Fixed(self.interval)
    }

    /// The interval source of a self-updating task: the configured interval
    /// until a run of the task sets another.
    pub fn self_updating_source(&self) -> (src: IntervalSource)
        ensures
            src == IntervalSource::SelfUpdating(self.poll_interval()),
    {
        IntervalSource::SelfUpdating(self.interval)
    }
}

} // verus!
