use crate::error::CancelPollingTaskTimeout;
use std::time::Duration;
use vstd::prelude::*;

verus! {

/// How long the owner of a polling task waits, once it has asked the task to
/// stop, for the task to confirm that it has exited.
#[derive(Debug, Clone, Copy, PartialEq, Eq)]
pub enum ExitWait {
    /// Move on at once (the default).
    NoWait,
    /// Block until the task confirms its exit, however long that takes.
    WaitForever,
    /// Block at most this long; past it the stop counts as timed out.
    WaitAtMost(Duration),
}

/// The exit policy that a handle gets from its builder's configuration.
pub open spec fn exit_wait_spec(wait_for_clean_exit: bool, timeout: Option<Duration>) -> ExitWait {
    if !wait_for_clean_exit {
        ExitWait::NoWait
    } else {
        match timeout {
            None => ExitWait::WaitForever,
            Some(t) => ExitWait::WaitAtMost(t),
        }
    }
}

/// Chooses the exit policy: no wait unless a clean exit was asked for; then a
/// wait bounded by `timeout` when one is given, an unbounded one otherwise.
pub fn exit_wait(wait_for_clean_exit: bool, timeout: Option<Duration>) -> (w: ExitWait)
    ensures
        w == exit_wait_spec(wait_for_clean_exit, timeout),
{
    if !wait_for_clean_exit {
        ExitWait::NoWait
    } else {
        match timeout {
            None => ExitWait::WaitForever,
            Some(t) => ExitWait::WaitAtMost(t),
        }
    }
}

/// What the owner must do when it is asked to stop the task.
#[derive(Debug, Clone, Copy, PartialEq, Eq)]
pub enum StopStep {
    /// The stop was already requested earlier: nothing is signalled, nothing
    /// is awaited.
    AlreadyStopped,
    /// Clear the task's active flag, wake the task, then wait as the policy
    /// says.
    Signal(ExitWait),
}

/// The owner's side of the stop protocol.
pub struct ExitModel {
    pub wait: ExitWait,
    pub stop_sent: bool,
}

/// Owner side of a polling task: its exit policy and whether the stop signal
/// has gone out.
pub struct ExitTracker {
    wait: ExitWait,
    stop_sent: bool,
}

impl View for ExitTracker {
    type V = ExitModel;

    closed spec fn view(&self) -> ExitModel {
        ExitModel { wait: self.wait, stop_sent: self.stop_sent }
    }
}

/// One request to stop: the first one signals and waits by the policy, every
/// later one does nothing.
pub open spec fn stop_spec(m: ExitModel) -> (ExitModel, StopStep) {
    if m.stop_sent {
        (m, StopStep::AlreadyStopped)
    } else {
        (ExitModel { wait: m.wait, stop_sent: true }, StopStep::Signal(m.wait))
    }
}

/// What a stop comes to, given whether the task's exit confirmation arrived
/// while the owner waited for it.
pub open spec fn cancel_result_spec(step: StopStep, reply_arrived: bool) -> Result<
    (),
    CancelPollingTaskTimeout,
> {
    match step {
        StopStep::Signal(ExitWait::WaitAtMost(_)) => if reply_arrived {
            Ok(())
        } else {
            Err(CancelPollingTaskTimeout)
        },
        _ => Ok(()),
    }
}

impl ExitTracker {
    /// A tracker for a running task with the given exit policy.
    pub fn new(wait: ExitWait) -> (t: ExitTracker)
        ensures
            t@ == (ExitModel { wait, stop_sent: false }),
    {
        ExitTracker { wait, stop_sent: false }
    }

    /// The exit policy.
    pub fn policy(&self) -> (w: ExitWait)
        ensures
            w == self@.wait,
    {
        self.wait
    }

    /// Whether the stop signal has been sent.
    pub fn stop_sent(&self) -> (b: bool)
        ensures
            b == self@.stop_sent,
    {
        self.stop_sent
    }

    /// Records a request to stop the task and says what the owner must do for
    /// it.
    pub fn request_stop(&mut self) -> (step: StopStep)
        ensures
            (final(self)@, step) == stop_spec(old(self)@),
    {
        if self.stop_sent {
            StopStep::AlreadyStopped
        } else {
            self.stop_sent = true;
            StopStep::Signal(self.wait)
        }
    }
}

/// The result of a stop: an error exactly when the owner waited with a timeout
/// and the task's exit confirmation did not arrive within it.
pub fn cancel_outcome(step: StopStep, reply_arrived: bool) -> (r: Result<
    (),
    CancelPollingTaskTimeout,
>)
    ensures
        r == cancel_result_spec(step, reply_arrived),
{
    match step {
        StopStep::Signal(ExitWait::WaitAtMost(_)) => if reply_arrived {
            Ok(())
        } else {
            Err(CancelPollingTaskTimeout)
        },
        _ => Ok(()),
    }
}

/// The timeout of the wait that a stop asks for, when the wait is bounded:
/// only then does the owner watch for the exit confirmation at all (a
/// non-blocking handle spawns its watcher only then).
pub fn bounded_wait(step: StopStep) -> (t: Option<Duration>)
    ensures
        t == (match step {
            StopStep::Signal(ExitWait::WaitAtMost(d)) => Some(d),
            _ => None,
        }),
        t is Some <==> (cancel_result_spec(step, false) is Err),
{
    match step {
        StopStep::Signal(ExitWait::WaitAtMost(d)) => Some(d),
        _ => None,
    }
}

/// A handle that was not asked to wait for a clean exit moves on at once,
/// whatever timeout it holds.
pub proof fn lemma_default_does_not_wait(timeout: Option<Duration>)
    ensures
        exit_wait_spec(false, timeout) == ExitWait::NoWait,
{
}

/// Once a clean exit is asked for, the wait is unbounded without a timeout and
/// bounded by the timeout with one.
pub proof fn lemma_clean_exit_waits(timeout: Option<Duration>)
    ensures
        timeout is None ==> exit_wait_spec(true, timeout) == ExitWait::WaitForever,
        timeout matches Some(t) ==> exit_wait_spec(true, timeout) == ExitWait::WaitAtMost(t),
{
}

/// A stop fails, which makes dropping the handle panic, exactly when the
/// owner waited with a timeout and the confirmation did not come in time.
pub proof fn lemma_timeout_error_exactly_when(step: StopStep, reply_arrived: bool)
    ensures
        cancel_result_spec(step, reply_arrived) is Err <==> (step matches StopStep::Signal(
            ExitWait::WaitAtMost(_),
        ) && !reply_arrived),
{
}

/// Waiting without a timeout never fails, whether or not the task could confirm
/// its exit (it may have died before it could).
pub proof fn lemma_unbounded_wait_never_fails(reply_arrived: bool)
    ensures
        cancel_result_spec(StopStep::Signal(ExitWait::WaitForever), reply_arrived) is Ok,
        cancel_result_spec(StopStep::Signal(ExitWait::NoWait), reply_arrived) is Ok,
{
}

/// Stopping is idempotent: after a first request (an explicit cancel, say), a
/// second one (the drop that follows) signals nothing, waits for nothing and
/// cannot fail, and leaves the tracker as it was.
pub proof fn lemma_second_stop_is_silent(m: ExitModel, reply_arrived: bool)
    ensures
        ({
            let (m1, s1) = stop_spec(m);
            let (m2, s2) = stop_spec(m1);
            &&& m1.stop_sent
            &&& m1.wait == m.wait
            &&& s2 == StopStep::AlreadyStopped
            &&& m2 == m1
            &&& cancel_result_spec(s2, reply_arrived) is Ok
        }),
{
}

/// The first request to stop a running task signals it and waits by the
/// policy that the tracker was made with.
pub proof fn lemma_first_stop_signals(wait: ExitWait)
    ensures
        stop_spec(ExitModel { wait, stop_sent: false }).1 == StopStep::Signal(wait),
{
}

} // verus!
