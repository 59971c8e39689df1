//! Polling tasks that run on a background thread.

pub mod common;

use crate::exit::{exit_wait, exit_wait_spec, ExitWait};
use std::time::Duration;
use vstd::prelude::*;

verus! {

/// Configures how the handles of new polling tasks behave when they are
/// cancelled or dropped.
pub struct PollingTaskBuilder {
    wait_for_clean_exit: bool,
    timeout: Option<Duration>,
}

impl PollingTaskBuilder {
    /// Whether the handle waits for the task to confirm its exit.
    pub closed spec fn waits_for_clean_exit(self) -> bool {
        self.wait_for_clean_exit
    }

    /// The longest the handle waits for that confirmation, if bounded.
    pub closed spec fn exit_timeout(self) -> Option<Duration> {
        self.timeout
    }

    /// A builder whose handles move on without waiting for the task to exit.
    pub fn new() -> (b: Self)
        ensures
            !b.waits_for_clean_exit(),
            b.exit_timeout() is None,
    {
        PollingTaskBuilder { wait_for_clean_exit: false, timeout: None }
    }

    /// Configures the handle to wait, when cancelled or dropped, until the
    /// background task confirms its exit: for at most `timeout` when one is
    /// given, without limit otherwise. Either way the wait blocks.
    pub fn wait_for_clean_exit(self, timeout: Option<Duration>) -> (b: Self)
        ensures
            b.waits_for_clean_exit(),
            b.exit_timeout() == timeout,
    {
        let mut b = self;
        b.timeout = timeout;
        b.wait_for_clean_exit = true;
        b
    }

    /// The exit policy that the handles made by this builder follow.
    pub fn exit_wait(&self) -> (w: ExitWait)
        ensures
            w == exit_wait_spec(self.waits_for_clean_exit(), self.exit_timeout()),
    {
        exit_wait(self.wait_for_clean_exit, self.timeout)
    }
}

impl Default for PollingTaskBuilder {
    fn default() -> (b: Self)
        ensures
            !b.waits_for_clean_exit(),
            b.exit_timeout() is None,
    {
        PollingTaskBuilder::new()
    }
}

} // verus!
