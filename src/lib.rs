//! A pool of worker threads that runs jobs once after a delay, or
//! repeatedly at a fixed or dynamic rate or delay.
//!
//! This crate holds the scheduling engine: the time-ordered job queue, the
//! shared scheduling state that every submission and every worker goes
//! through, the rules by which recurring jobs are rescheduled, and the
//! cancellation handle. Instants are counted in nanoseconds from an origin
//! that the pool picks (its start), so that every decision is made on plain
//! integers.
mod handle;
mod job;
mod laws;
mod policy;
mod queue;
mod schedule;

pub use handle::JobHandle;
pub use job::{later, next_due, next_due_of, Job, Outcome, Recurrence};
pub use laws::{
    lemma_default_policy_keeps_due_times, lemma_discard_policy_runs_nothing, lemma_due_jobs_all_run,
    lemma_immediate_policy_drains, lemma_nothing_queued_after_shutdown,
};
pub use policy::OnPoolDropBehavior;
pub use queue::{earliest_last, is_earliest_due, none_due_before, JobQueue};
pub use schedule::{any_due, fetched, submitted, Fetch, Schedule, Submitted};
