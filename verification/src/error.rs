use vstd::prelude::*;

verus! {

/// Returned when the background task did not confirm its exit within the
/// timeout that the handle was configured with.
#[derive(Debug, Clone, Copy, PartialEq, Eq)]
pub struct CancelPollingTaskTimeout;

impl CancelPollingTaskTimeout {
    /// The human readable description of the error.
    pub fn message(&self) -> (msg: &'static str)
        ensures
            msg@ == "Timed out waiting for polling task to signal exit"@,
    {
        "Timed out waiting for polling task to signal exit"
    }
}

} // verus!
