use crate::handle::JobHandle;
use std::cmp::Ordering;
use vstd::prelude::*;

verus! {

/// How a job is rescheduled after it has run. Intervals are in nanoseconds.
#[derive(Clone, Copy, Debug, PartialEq, Eq, Structural)]
pub enum Recurrence {
    /// Runs once and is never resubmitted.
    Once,
    /// Next due time: the previous due time plus the rate.
    FixedRate(u64),
    /// Next due time: the previous due time plus the interval that the run
    /// returned; no interval ends the job.
    DynamicRate,
    /// Next due time: the time the run completed plus the delay.
    FixedDelay(u64),
    /// Next due time: the time the run completed plus the interval that the
    /// run returned; no interval ends the job.
    DynamicDelay,
}

/// One pending unit of work: when it is due, how it recurs, the flag that
/// cancels it, and the work itself (`task`, opaque to the scheduler).
pub struct Job<T> {
    pub due: u64,
    pub recurrence: Recurrence,
    pub canceled: JobHandle,
    pub task: T,
}

impl<T> Job<T> {
    /// Queue order: a job ranks greater the earlier it is due, so that the
    /// earliest job is the greatest. The due time is the only key.
    pub fn cmp(&self, other: &Job<T>) -> (r: Ordering)
        ensures
            r == Ordering::Greater <==> self.due < other.due,
            r == Ordering::Equal <==> self.due == other.due,
            r == Ordering::Less <==> self.due > other.due,
    {
        if self.due < other.due {
            Ordering::Greater
        } else if self.due == other.due {
            Ordering::Equal
        } else {
            Ordering::Less
        }
    }
}

/// How a popped job's turn ended.
#[derive(Clone, Copy, Debug, PartialEq, Eq, Structural)]
pub enum Outcome {
    /// Its handle had been canceled: it was discarded without running.
    Canceled,
    /// The work panicked.
    Panicked,
    /// The work returned: the interval that a dynamic job asks for, or
    /// `None` (always `None` for the other kinds).
    Completed(Option<u64>),
}

/// `base + by`, unless that leaves the range of instants.
pub open spec fn later(base: u64, by: u64) -> Option<u64> {
    if base + by <= u64::MAX {
        Some((base + by) as u64)
    } else {
        None
    }
}

/// When a job that was due at `due`, and whose turn ended at `finished` with
/// `outcome`, is due again; `None` when it is not resubmitted.
pub open spec fn next_due_of(
    recurrence: Recurrence,
    due: u64,
    finished: u64,
    outcome: Outcome,
) -> Option<u64> {
    match outcome {
        Outcome::Completed(interval) => match recurrence {
            Recurrence::Once => None,
            Recurrence::FixedRate(rate) => later(due, rate),
            Recurrence::DynamicRate => match interval {
                Some(rate) => later(due, rate),
                None => None,
            },
            Recurrence::FixedDelay(delay) => later(finished, delay),
            Recurrence::DynamicDelay => match interval {
                Some(delay) => later(finished, delay),
                None => None,
            },
        },
        _ => None,
    }
}

fn add_within(base: u64, by: u64) -> (r: Option<u64>)
    ensures
        r == later(base, by),
{
    base.checked_add(by)
}

/// The instant at which a job runs again after its turn, if it does: a
/// canceled, failed or one-shot job never does, nor one whose next instant
/// would overflow; a fixed or dynamic rate counts from the previous due time,
/// a fixed or dynamic delay from `finished`.
pub fn next_due(recurrence: Recurrence, due: u64, finished: u64, outcome: Outcome) -> (r: Option<
    u64,
>)
    ensures
        r == next_due_of(recurrence, due, finished, outcome),
        outcome == Outcome::Canceled ==> r is None,
        outcome == Outcome::Panicked ==> r is None,
        recurrence == Recurrence::Once ==> r is None,
{
    match outcome {
        Outcome::Completed(interval) => match recurrence {
            Recurrence::Once => None,
            Recurrence::FixedRate(rate) => add_within(due, rate),
            Recurrence::DynamicRate => match interval {
                Some(rate) => add_within(due, rate),
                None => None,
            },
            Recurrence::FixedDelay(delay) => add_within(finished, delay),
            Recurrence::DynamicDelay => match interval {
                Some(delay) => add_within(finished, delay),
                None => None,
            },
        },
        _ => None,
    }
}

impl<T> Job<T> {
    /// The same job, due again at the instant that its recurrence gives
    /// after this turn, if it recurs.
    pub fn rescheduled(self, finished: u64, outcome: Outcome) -> (r: Option<Job<T>>)
        ensures
            next_due_of(self.recurrence, self.due, finished, outcome) matches Some(d) ==> r == Some(
                Job { due: d, ..self },
            ),
            next_due_of(self.recurrence, self.due, finished, outcome) is None ==> r is None,
    {
        match next_due(self.recurrence, self.due, finished, outcome) {
            Some(d) => Some(Job { due: d, ..self }),
            None => None,
        }
    }
}

} // verus!
