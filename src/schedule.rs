use crate::job::Job;
use crate::policy::OnPoolDropBehavior;
use crate::queue::{is_earliest_due, JobQueue};
use vstd::prelude::*;

verus! {

broadcast use vstd::seq_lib::group_to_multiset_ensures;

/// What became of a submitted job.
#[derive(Clone, Copy, Debug, PartialEq, Eq, Structural)]
pub enum Submitted {
    /// The pool is shutting down: the job was dropped.
    Dropped,
    /// The job was queued behind an earlier or equally due one: no waiting
    /// worker needs to reconsider.
    Queued,
    /// The job was queued and is now due before every other queued job:
    /// every waiting worker must be woken to reconsider its deadline.
    QueuedEarliest,
}

/// What a worker does next.
pub enum Fetch<T> {
    /// Exit: no more work will ever be handed out.
    Stop,
    /// Block until woken: nothing is queued.
    Wait,
    /// Block until woken or until this instant, then ask again.
    WaitUntil(u64),
    /// Run this job.
    Run(Job<T>),
}

/// The state that the pool and all its workers share, under one lock: the
/// pending jobs, the shutdown flag and the drop policy.
pub struct Schedule<T> {
    queue: JobQueue<T>,
    shutdown: bool,
    on_drop_behavior: OnPoolDropBehavior,
}

/// Some job of `s` is due at or before `now`.
pub open spec fn any_due<T>(s: Seq<Job<T>>, now: u64) -> bool {
    exists|i: int| 0 <= i < s.len() && #[trigger] s[i].due <= now
}

/// What `fetch` does at `now` to the queued jobs `s`, with the shutdown flag
/// `down` and the policy `p`: `r` is its answer and `rest` the jobs left.
pub open spec fn fetched<T>(
    s: Seq<Job<T>>,
    down: bool,
    p: OnPoolDropBehavior,
    now: u64,
    r: Fetch<T>,
    rest: Seq<Job<T>>,
) -> bool {
    if s.len() == 0 {
        &&& r is Stop <==> down
        &&& r is Wait <==> !down
        &&& rest == s
    } else if down && p == OnPoolDropBehavior::DiscardPendingScheduled {
        r is Stop && rest == s
    } else if (down && p == OnPoolDropBehavior::RunPendingScheduledImmediately) || any_due(s, now) {
        &&& r is Run
        &&& s.contains(r->Run_0)
        &&& is_earliest_due(s, r->Run_0.due)
        &&& rest.to_multiset() == s.to_multiset().remove(r->Run_0)
        &&& rest.len() == s.len() - 1
    } else {
        &&& r is WaitUntil
        &&& is_earliest_due(s, r->WaitUntil_0)
        &&& now < r->WaitUntil_0
        &&& rest == s
    }
}

/// What `submit` does with `job` to the queued jobs `s`, with the shutdown
/// flag `down`: `r` is its answer and `rest` the jobs queued after it.
pub open spec fn submitted<T>(s: Seq<Job<T>>, down: bool, job: Job<T>, r: Submitted, rest: Seq<
    Job<T>,
>) -> bool {
    if down {
        r == Submitted::Dropped && rest == s
    } else {
        &&& rest.to_multiset() == s.to_multiset().insert(job)
        &&& rest.len() == s.len() + 1
        &&& rest.contains(job)
        &&& r != Submitted::Dropped
        &&& r == Submitted::QueuedEarliest <==> forall|i: int|
            0 <= i < s.len() ==> job.due < #[trigger] s[i].due
    }
}

impl<T> Schedule<T> {
    pub closed spec fn wf(&self) -> bool {
        self.queue.wf()
    }

    /// The queued jobs, in no particular order.
    pub closed spec fn pending(&self) -> Seq<Job<T>> {
        self.queue@
    }

    pub closed spec fn is_shut_down(&self) -> bool {
        self.shutdown
    }

    pub closed spec fn policy(&self) -> OnPoolDropBehavior {
        self.on_drop_behavior
    }

    /// Nothing queued, not shutting down.
    pub fn new(on_drop_behavior: OnPoolDropBehavior) -> (s: Schedule<T>)
        ensures
            s.wf(),
            s.pending().len() == 0,
            !s.is_shut_down(),
            s.policy() == on_drop_behavior,
    {
        Schedule { queue: JobQueue::new(), shutdown: false, on_drop_behavior }
    }

    pub fn shutting_down(&self) -> (r: bool)
        ensures
            r == self.is_shut_down(),
    {
        self.shutdown
    }

    pub fn on_drop_behavior(&self) -> (r: OnPoolDropBehavior)
        ensures
            r == self.policy(),
    {
        self.on_drop_behavior
    }

    pub fn pending_len(&self) -> (r: usize)
        ensures
            r == self.pending().len(),
    {
        self.queue.len()
    }

    /// Queues a job, unless the pool is shutting down, and says whether the
    /// waiting workers must be woken.
    pub fn submit(&mut self, job: Job<T>) -> (r: Submitted)
        requires
            old(self).wf(),
        ensures
            final(self).wf(),
            final(self).is_shut_down() == old(self).is_shut_down(),
            final(self).policy() == old(self).policy(),
            submitted(
                old(self).pending(),
                old(self).is_shut_down(),
                job,
                r,
                final(self).pending(),
            ),
            // Once shutdown has begun nothing is queued any more.
            old(self).is_shut_down() ==> r == Submitted::Dropped,
    {
        if self.shutdown {
            return Submitted::Dropped;
        }
        let wake = match self.queue.peek_due() {
            None => true,
            Some(d) => job.due < d,
        };
        self.queue.push(job);
        if wake {
            Submitted::QueuedEarliest
        } else {
            Submitted::Queued
        }
    }

    /// Begins the shutdown. The queued jobs stay; what becomes of them is
    /// the drop policy's to say, through `fetch`.
    pub fn shut_down(&mut self)
        ensures
            final(self).wf() == old(self).wf(),
            final(self).is_shut_down(),
            final(self).pending() == old(self).pending(),
            final(self).policy() == old(self).policy(),
    {
        self.shutdown = true;
    }

    /// Decides, at instant `now`, what a worker does next, and takes out the
    /// job it is to run.
    pub fn fetch(&mut self, now: u64) -> (r: Fetch<T>)
        requires
            old(self).wf(),
        ensures
            final(self).wf(),
            final(self).is_shut_down() == old(self).is_shut_down(),
            final(self).policy() == old(self).policy(),
            fetched(
                old(self).pending(),
                old(self).is_shut_down(),
                old(self).policy(),
                now,
                r,
                final(self).pending(),
            ),
            // With the discard policy nothing runs once shutdown has begun.
            old(self).is_shut_down() && old(self).policy()
                == OnPoolDropBehavior::DiscardPendingScheduled ==> r is Stop,
            // With the immediate policy every queued job runs at once.
            old(self).is_shut_down() && old(self).policy()
                == OnPoolDropBehavior::RunPendingScheduledImmediately && old(self).pending().len()
                > 0 ==> r is Run,
            // Otherwise no job runs before its due time.
            !old(self).is_shut_down() || old(self).policy()
                == OnPoolDropBehavior::CompletePendingScheduled ==> (r matches Fetch::Run(j)
                ==> j.due <= now),
    {
        let due = match self.queue.peek_due() {
            None => {
                return if self.shutdown {
                    Fetch::Stop
                } else {
                    Fetch::Wait
                };
            },
            Some(d) => d,
        };
        if self.shutdown {
            match self.on_drop_behavior {
                OnPoolDropBehavior::DiscardPendingScheduled => {
                    return Fetch::Stop;
                },
                OnPoolDropBehavior::RunPendingScheduledImmediately => {
                    return self.take();
                },
                OnPoolDropBehavior::CompletePendingScheduled => {},
            }
        }
        if due <= now {
            self.take()
        } else {
            proof {
                let s = self.queue@;
                assert(!any_due(s, now)) by {
                    assert forall|i: int| 0 <= i < s.len() implies #[trigger] s[i].due > now by {
                        assert(due <= s[i].due);
                    }
                }
            }
            Fetch::WaitUntil(due)
        }
    }

    /// Takes out an earliest job of a non-empty queue.
    fn take(&mut self) -> (r: Fetch<T>)
        requires
            old(self).wf(),
            old(self).pending().len() > 0,
        ensures
            final(self).wf(),
            final(self).is_shut_down() == old(self).is_shut_down(),
            final(self).policy() == old(self).policy(),
            r is Run,
            old(self).pending().contains(r->Run_0),
            is_earliest_due(old(self).pending(), r->Run_0.due),
            final(self).pending().to_multiset() == old(self).pending().to_multiset().remove(
                r->Run_0,
            ),
            final(self).pending().len() == old(self).pending().len() - 1,
    {
        match self.queue.pop() {
            Some(j) => Fetch::Run(j),
            None => Fetch::Stop,
        }
    }
}

} // verus!
