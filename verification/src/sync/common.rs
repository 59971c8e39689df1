use crate::exit::{ExitWait, StopStep};
use vstd::prelude::*;

verus! {

/// The failure of joining a polling task.
#[derive(Debug, Clone, Copy, PartialEq, Eq)]
pub enum JoinError {
    /// The task did not confirm its exit within the timeout.
    Timeout,
}

impl JoinError {
    /// The human readable description of the error.
    pub fn message(&self) -> (msg: &'static str)
        ensures
            msg@ == "Timed out waiting for the polling thread to exit"@,
    {
        match self {
            JoinError::Timeout => "Timed out waiting for the polling thread to exit",
        }
    }
}

/// The result of joining a task after a stop: a timeout exactly when the owner
/// waited with a timeout and the exit confirmation did not arrive within it.
pub fn join_outcome(step: StopStep, reply_arrived: bool) -> (r: Result<(), JoinError>)
    ensures
        r is Err <==> (step matches StopStep::Signal(ExitWait::WaitAtMost(_)) && !reply_arrived),
        r matches Err(e) ==> e == JoinError::Timeout,
{
    match step {
        StopStep::Signal(ExitWait::WaitAtMost(_)) => if reply_arrived {
            Ok(())
        } else {
            Err(JoinError::Timeout)
        },
        _ => Ok(()),
    }
}

} // verus!
