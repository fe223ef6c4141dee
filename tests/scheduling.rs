use scheduled_thread_pool::{
    next_due, Fetch, Job, JobHandle, OnPoolDropBehavior, Outcome, Recurrence, Schedule, Submitted,
};
use std::cmp::Ordering;

const MS: u64 = 1_000_000;

fn once(due: u64, task: u32) -> Job<u32> {
    Job { due, recurrence: Recurrence::Once, canceled: JobHandle::new(), task }
}

fn run_task(f: Fetch<u32>) -> u32 {
    match f {
        Fetch::Run(j) => j.task,
        Fetch::Stop => panic!("stopped"),
        Fetch::Wait => panic!("waiting"),
        Fetch::WaitUntil(t) => panic!("waiting until {}", t),
    }
}

fn wait_until(f: Fetch<u32>) -> u64 {
    match f {
        Fetch::WaitUntil(t) => t,
        _ => panic!("expected a timed wait"),
    }
}

fn is_stop(f: &Fetch<u32>) -> bool {
    matches!(f, Fetch::Stop)
}

fn is_wait(f: &Fetch<u32>) -> bool {
    matches!(f, Fetch::Wait)
}

#[test]
fn all_immediate_jobs_are_handed_out() {
    let mut s = Schedule::new(OnPoolDropBehavior::CompletePendingScheduled);
    for k in 0..4u32 {
        s.submit(once(0, 1 + k));
    }
    let mut total = 0u32;
    for _ in 0..4 {
        total += match s.fetch(0) {
            Fetch::Run(_) => 1,
            _ => 0,
        };
    }
    assert_eq!(total, 4);
    assert!(is_wait(&s.fetch(0)));
}

#[test]
fn earlier_due_job_runs_first() {
    let mut s = Schedule::new(OnPoolDropBehavior::CompletePendingScheduled);
    s.submit(once(1000 * MS, 1));
    s.submit(once(500 * MS, 2));
    assert_eq!(wait_until(s.fetch(0)), 500 * MS);
    assert_eq!(run_task(s.fetch(500 * MS)), 2);
    assert_eq!(wait_until(s.fetch(500 * MS)), 1000 * MS);
    assert_eq!(run_task(s.fetch(1000 * MS)), 1);
}

#[test]
fn submit_reports_when_to_wake_workers() {
    let mut s = Schedule::new(OnPoolDropBehavior::CompletePendingScheduled);
    assert_eq!(s.submit(once(1000 * MS, 1)), Submitted::QueuedEarliest);
    assert_eq!(s.submit(once(2000 * MS, 2)), Submitted::Queued);
    assert_eq!(s.submit(once(1000 * MS, 3)), Submitted::Queued);
    assert_eq!(s.submit(once(500 * MS, 4)), Submitted::QueuedEarliest);
    assert_eq!(s.pending_len(), 4);
}

#[test]
fn empty_schedule_waits_then_stops_after_shutdown() {
    let mut s: Schedule<u32> = Schedule::new(OnPoolDropBehavior::CompletePendingScheduled);
    assert!(is_wait(&s.fetch(0)));
    assert!(!s.shutting_down());
    s.shut_down();
    assert!(s.shutting_down());
    assert!(is_stop(&s.fetch(0)));
}

#[test]
fn pending_jobs_complete_in_due_order_after_shutdown() {
    let mut s = Schedule::new(OnPoolDropBehavior::CompletePendingScheduled);
    s.submit(once(1000 * MS, 1));
    s.submit(once(500 * MS, 2));
    s.shut_down();
    assert_eq!(wait_until(s.fetch(0)), 500 * MS);
    assert_eq!(run_task(s.fetch(600 * MS)), 2);
    assert_eq!(wait_until(s.fetch(600 * MS)), 1000 * MS);
    assert_eq!(run_task(s.fetch(1000 * MS)), 1);
    assert!(is_stop(&s.fetch(1000 * MS)));
}

#[test]
fn pending_jobs_are_discarded_after_shutdown() {
    let mut s = Schedule::new(OnPoolDropBehavior::DiscardPendingScheduled);
    assert_eq!(s.on_drop_behavior(), OnPoolDropBehavior::DiscardPendingScheduled);
    s.submit(once(1000 * MS, 1));
    s.submit(once(500 * MS, 2));
    s.shut_down();
    assert!(is_stop(&s.fetch(0)));
    assert!(is_stop(&s.fetch(2000 * MS)));
    assert_eq!(s.pending_len(), 2);
}

#[test]
fn pending_jobs_run_at_once_after_shutdown() {
    let mut s = Schedule::new(OnPoolDropBehavior::RunPendingScheduledImmediately);
    s.submit(once(10_000 * MS, 1));
    s.submit(once(5_000 * MS, 2));
    s.shut_down();
    let a = run_task(s.fetch(0));
    let b = run_task(s.fetch(0));
    assert_eq!(a + b, 3);
    assert_ne!(a, b);
    assert!(is_stop(&s.fetch(0)));
}

#[test]
fn nothing_is_resubmitted_after_shutdown() {
    let mut s = Schedule::new(OnPoolDropBehavior::CompletePendingScheduled);
    let handle = JobHandle::new();
    let job = Job {
        due: 500 * MS,
        recurrence: Recurrence::FixedRate(500 * MS),
        canceled: handle.clone(),
        task: 7u32,
    };
    s.submit(job);
    let job = match s.fetch(500 * MS) {
        Fetch::Run(j) => j,
        _ => panic!("expected the job to run"),
    };
    let again = job.rescheduled(510 * MS, Outcome::Completed(None)).unwrap();
    assert_eq!(again.due, 1000 * MS);
    assert_eq!(s.submit(again), Submitted::QueuedEarliest);
    let job = match s.fetch(1000 * MS) {
        Fetch::Run(j) => j,
        _ => panic!("expected the job to run"),
    };
    s.shut_down();
    let again = job.rescheduled(1010 * MS, Outcome::Completed(None)).unwrap();
    assert_eq!(s.submit(again), Submitted::Dropped);
    assert_eq!(s.pending_len(), 0);
    assert!(is_stop(&s.fetch(2000 * MS)));
}

#[test]
fn canceled_handle_stops_every_kind_of_recurrence() {
    let handle = JobHandle::new();
    let shared = handle.clone();
    assert!(!shared.is_canceled());
    handle.cancel();
    assert!(shared.is_canceled());
    handle.cancel();
    assert!(shared.is_canceled());
    for r in [
        Recurrence::FixedRate(500 * MS),
        Recurrence::DynamicRate,
        Recurrence::FixedDelay(500 * MS),
        Recurrence::DynamicDelay,
    ] {
        assert_eq!(next_due(r, 500 * MS, 600 * MS, Outcome::Canceled), None);
    }
}

#[test]
fn failed_job_is_not_rescheduled_and_others_still_run() {
    let mut s = Schedule::new(OnPoolDropBehavior::CompletePendingScheduled);
    s.submit(Job {
        due: 0,
        recurrence: Recurrence::FixedRate(MS),
        canceled: JobHandle::new(),
        task: 1u32,
    });
    let failed = match s.fetch(0) {
        Fetch::Run(j) => j,
        _ => panic!("expected the job to run"),
    };
    assert!(failed.rescheduled(5, Outcome::Panicked).is_none());
    s.submit(once(0, 2));
    assert_eq!(run_task(s.fetch(0)), 2);
}

#[test]
fn rates_count_from_due_time_and_delays_from_completion() {
    let due = 1000 * MS;
    let done = 1300 * MS;
    assert_eq!(next_due(Recurrence::Once, due, done, Outcome::Completed(None)), None);
    assert_eq!(
        next_due(Recurrence::FixedRate(500 * MS), due, done, Outcome::Completed(None)),
        Some(1500 * MS)
    );
    assert_eq!(
        next_due(Recurrence::FixedDelay(500 * MS), due, done, Outcome::Completed(None)),
        Some(1800 * MS)
    );
    assert_eq!(
        next_due(Recurrence::DynamicRate, due, done, Outcome::Completed(Some(200 * MS))),
        Some(1200 * MS)
    );
    assert_eq!(
        next_due(Recurrence::DynamicDelay, due, done, Outcome::Completed(Some(200 * MS))),
        Some(1500 * MS)
    );
    assert_eq!(next_due(Recurrence::DynamicRate, due, done, Outcome::Completed(None)), None);
    assert_eq!(next_due(Recurrence::DynamicDelay, due, done, Outcome::Completed(None)), None);
}

#[test]
fn next_due_that_would_overflow_ends_the_job() {
    assert_eq!(
        next_due(Recurrence::FixedRate(2), u64::MAX - 1, 0, Outcome::Completed(None)),
        None
    );
    assert_eq!(
        next_due(Recurrence::FixedDelay(1), 0, u64::MAX, Outcome::Completed(None)),
        None
    );
    assert_eq!(
        next_due(Recurrence::FixedRate(1), u64::MAX - 1, 0, Outcome::Completed(None)),
        Some(u64::MAX)
    );
}

#[test]
fn jobs_order_by_due_time_alone() {
    let a = once(100, 1);
    let b = once(200, 2);
    let c = once(100, 3);
    assert_eq!(a.cmp(&b), Ordering::Greater);
    assert_eq!(b.cmp(&a), Ordering::Less);
    assert_eq!(a.cmp(&c), Ordering::Equal);
}
