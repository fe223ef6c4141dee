use crate::job::Job;
use std::cmp::Ordering;
use vstd::prelude::*;

verus! {

broadcast use vstd::seq_lib::group_to_multiset_ensures;

/// No job of `s` is due before `d`.
pub open spec fn none_due_before<T>(s: Seq<Job<T>>, d: u64) -> bool {
    forall|i: int| 0 <= i < s.len() ==> d <= #[trigger] s[i].due
}

/// `d` is the earliest due time among the jobs of `s`.
pub open spec fn is_earliest_due<T>(s: Seq<Job<T>>, d: u64) -> bool {
    &&& exists|i: int| 0 <= i < s.len() && #[trigger] s[i].due == d
    &&& none_due_before(s, d)
}

/// Later jobs come first: the earliest due job is the last one.
pub open spec fn earliest_last<T>(s: Seq<Job<T>>) -> bool {
    forall|i: int, j: int| 0 <= i < j < s.len() ==> #[trigger] s[i].due >= #[trigger] s[j].due
}

/// Pending jobs, ordered by due time. Among jobs due at the same time the
/// order is unspecified.
pub struct JobQueue<T> {
    jobs: Vec<Job<T>>,
}

impl<T> View for JobQueue<T> {
    type V = Seq<Job<T>>;

    closed spec fn view(&self) -> Seq<Job<T>> {
        self.jobs@
    }
}

impl<T> JobQueue<T> {
    pub closed spec fn wf(&self) -> bool {
        earliest_last(self.jobs@)
    }

    pub fn new() -> (q: JobQueue<T>)
        ensures
            q.wf(),
            q@.len() == 0,
    {
        JobQueue { jobs: Vec::new() }
    }

    pub fn len(&self) -> (r: usize)
        ensures
            r == self@.len(),
    {
        self.jobs.len()
    }

    /// The earliest due time, if any job is queued.
    pub fn peek_due(&self) -> (r: Option<u64>)
        requires
            self.wf(),
        ensures
            r is None <==> self@.len() == 0,
            r matches Some(d) ==> is_earliest_due(self@, d),
    {
        let n = self.jobs.len();
        if n == 0 {
            None
        } else {
            let d = self.jobs[n - 1].due;
            assert(self@[n - 1].due == d);
            Some(d)
        }
    }

    /// Adds a job in its place by due time.
    pub fn push(&mut self, job: Job<T>)
        requires
            old(self).wf(),
        ensures
            final(self).wf(),
            final(self)@.to_multiset() == old(self)@.to_multiset().insert(job),
            final(self)@.len() == old(self)@.len() + 1,
            final(self)@.contains(job),
    {
        let n = self.jobs.len();
        let mut i: usize = 0;
        while i < n
            invariant
                self.jobs@ == old(self).jobs@,
                n == self.jobs.len(),
                i <= n,
                forall|k: int| 0 <= k < i ==> #[trigger] self.jobs@[k].due >= job.due,
            ensures
                i <= n,
                forall|k: int| 0 <= k < i ==> #[trigger] self.jobs@[k].due >= job.due,
                i < n ==> self.jobs@[i as int].due < job.due,
            decreases n - i,
        {
            match self.jobs[i].cmp(&job) {
                Ordering::Greater => break,
                _ => {},
            }
            i = i + 1;
        }
        proof {
            vstd::seq_lib::to_multiset_insert(self.jobs@, i as int, job);
        }
        self.jobs.insert(i, job);
        assert(self.jobs@[i as int] == job);
        assert(earliest_last(self.jobs@)) by {
            assert forall|a: int, b: int| 0 <= a < b < self.jobs@.len() implies
                #[trigger] self.jobs@[a].due >= #[trigger] self.jobs@[b].due by {
                let s = old(self).jobs@;
                if b < i {
                } else if a < i && b == i {
                } else if a < i {
                    assert(self.jobs@[b] == s[b - 1]);
                } else if a == i {
                    assert(self.jobs@[b] == s[b - 1]);
                    assert(s[b - 1].due <= s[i as int].due);
                } else {
                    assert(self.jobs@[a] == s[a - 1]);
                    assert(self.jobs@[b] == s[b - 1]);
                }
            }
        }
    }

    /// Takes out a job that no other queued job is due before.
    pub fn pop(&mut self) -> (r: Option<Job<T>>)
        requires
            old(self).wf(),
        ensures
            final(self).wf(),
            old(self)@.len() == 0 ==> r is None && final(self)@ == old(self)@,
            old(self)@.len() > 0 ==> (r matches Some(j) && is_earliest_due(old(self)@, j.due)
                && old(self)@.contains(j)
                && final(self)@.to_multiset() == old(self)@.to_multiset().remove(j)
                && final(self)@.len() == old(self)@.len() - 1),
    {
        let ghost s = self.jobs@;
        let r = self.jobs.pop();
        proof {
            if s.len() > 0 {
                assert(s.drop_last() == s.remove(s.len() - 1));
                assert(s[s.len() - 1].due == r->Some_0.due);
                assert(s.contains(s[s.len() - 1]));
            }
        }
        r
    }
}

} // verus!
