use vstd::prelude::*;

verus! {

/// What happens to the jobs still queued when the pool is dropped.
#[derive(Clone, Copy, Debug, PartialEq, Eq, Structural)]
pub enum OnPoolDropBehavior {
    /// Queued jobs still run at their due times, but recurring jobs are not
    /// rescheduled once they have run. This is the default.
    CompletePendingScheduled,
    /// Queued jobs are abandoned without running.
    DiscardPendingScheduled,
    /// Queued jobs run at once, without waiting for their due times, and
    /// recurring jobs are not rescheduled.
    RunPendingScheduledImmediately,
}

} // verus!
