use std::sync::atomic::{AtomicBool, Ordering};
use std::sync::Arc;
use vstd::prelude::*;

verus! {

/// A handle to a scheduled job.
///
/// The flag inside is shared by the handle and by every queued instance of
/// the job it was made for, so cancelling stops all of the job's future
/// runs, including one that is already queued.
#[derive(Clone, Debug)]
pub struct JobHandle(Arc<AtomicBool>);

impl JobHandle {
    /// A handle whose job is not canceled.
    pub fn new() -> JobHandle {
        JobHandle(Arc::new(AtomicBool::new(false)))
    }

    /// Cancels the job. Calling it again, or after the job has run, changes
    /// nothing more.
    pub fn cancel(&self) {
        self.0.store(true, Ordering::SeqCst);
    }

    /// Whether `cancel` has been called on this handle or on one that
    /// shares its flag.
    pub fn is_canceled(&self) -> bool {
        self.0.load(Ordering::SeqCst)
    }
}

} // verus!
