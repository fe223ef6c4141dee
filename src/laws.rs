//! Properties of the scheduling state that hold across calls.
use crate::job::Job;
use crate::policy::OnPoolDropBehavior;
use crate::schedule::{fetched, submitted, Fetch, Submitted};
use vstd::prelude::*;

verus! {

/// Every job left behind by a step was there before it.
proof fn lemma_left_jobs_were_queued<T>(s: Seq<Job<T>>, x: Job<T>, rest: Seq<Job<T>>, y: Job<T>)
    requires
        rest.to_multiset() == s.to_multiset().remove(x),
        rest.contains(y),
    ensures
        s.contains(y),
{
    broadcast use {
        vstd::seq_lib::group_to_multiset_ensures,
        vstd::multiset::group_multiset_axioms,
        vstd::multiset::group_multiset_properties,
    };

    assert(rest.to_multiset().count(y) > 0);
    if y != x {
        assert(s.to_multiset().count(y) == rest.to_multiset().count(y));
    } else {
        assert(s.to_multiset().count(y) >= 1);
    }
}

/// The induction step of `lemma_due_jobs_all_run`, from the `k`-th fetch on.
proof fn lemma_due_jobs_run_from<T>(
    states: Seq<Seq<Job<T>>>,
    results: Seq<Fetch<T>>,
    nows: Seq<u64>,
    p: OnPoolDropBehavior,
    k: int,
)
    requires
        0 <= k <= results.len(),
        states.len() == results.len() + 1,
        nows.len() == results.len(),
        forall|j: int| 0 <= j < nows.len() ==> nows[0] <= #[trigger] nows[j],
        k <= states[0].len() ==> states[k].len() == states[0].len() - k,
        k <= states[0].len() ==> forall|i: int|
            0 <= i < states[k].len() ==> #[trigger] states[k][i].due <= nows[0],
        forall|j: int|
            0 <= j < results.len() ==> fetched(
                #[trigger] states[j],
                false,
                p,
                nows[j],
                results[j],
                states[j + 1],
            ),
    ensures
        forall|j: int|
            k <= j < results.len() && j < states[0].len() ==> #[trigger] results[j] is Run,
    decreases results.len() - k,
{
    let n = states[0].len();
    if k < results.len() && k < n {
        let s = states[k];
        assert(fetched(s, false, p, nows[k], results[k], states[k + 1]));
        assert(s[0].due <= nows[k]);
        assert(crate::schedule::any_due(s, nows[k]));
        let x = results[k]->Run_0;
        assert forall|i: int| 0 <= i < states[k + 1].len() implies #[trigger] states[k
            + 1][i].due <= nows[0] by {
            let y = states[k + 1][i];
            assert(states[k + 1].contains(y));
            lemma_left_jobs_were_queued(s, x, states[k + 1], y);
        }
        lemma_due_jobs_run_from(states, results, nows, p, k + 1);
    }
}

/// Jobs that are all due are all handed out: over a run of fetches at
/// instants no earlier than the first, with no shutdown and no submission in
/// between, each of the first `n` fetches runs a job, where `n` is the number
/// of jobs queued at the start, all due by the first instant.
pub proof fn lemma_due_jobs_all_run<T>(
    states: Seq<Seq<Job<T>>>,
    results: Seq<Fetch<T>>,
    nows: Seq<u64>,
    p: OnPoolDropBehavior,
)
    requires
        states.len() == results.len() + 1,
        nows.len() == results.len(),
        forall|k: int| 0 <= k < nows.len() ==> nows[0] <= #[trigger] nows[k],
        forall|i: int| 0 <= i < states[0].len() ==> #[trigger] states[0][i].due <= nows[0],
        forall|k: int|
            0 <= k < results.len() ==> fetched(
                #[trigger] states[k],
                false,
                p,
                nows[k],
                results[k],
                states[k + 1],
            ),
    ensures
        forall|k: int| 0 <= k < results.len() && k < states[0].len() ==> #[trigger] results[k] is Run,
{
    lemma_due_jobs_run_from(states, results, nows, p, 0);
}

/// Under the default policy a shutdown changes nothing for queued jobs:
/// with jobs queued, `fetch` answers as it would without a shutdown, so
/// each still runs at its due time, the earliest first.
pub proof fn lemma_default_policy_keeps_due_times<T>(
    s: Seq<Job<T>>,
    now: u64,
    r: Fetch<T>,
    rest: Seq<Job<T>>,
)
    requires
        s.len() > 0,
        fetched(s, true, OnPoolDropBehavior::CompletePendingScheduled, now, r, rest),
    ensures
        fetched(s, false, OnPoolDropBehavior::CompletePendingScheduled, now, r, rest),
        r matches Fetch::Run(j) ==> j.due <= now,
{
    if r is Run {
        let j = r->Run_0;
        let i = choose|i: int| 0 <= i < s.len() && #[trigger] s[i].due <= now;
        assert(j.due <= s[i].due);
    }
}

/// Under the discard policy no job runs once shutdown has begun, whatever
/// the instant and whatever is queued.
pub proof fn lemma_discard_policy_runs_nothing<T>(
    s: Seq<Job<T>>,
    now: u64,
    r: Fetch<T>,
    rest: Seq<Job<T>>,
)
    requires
        fetched(s, true, OnPoolDropBehavior::DiscardPendingScheduled, now, r, rest),
    ensures
        r is Stop,
        rest == s,
{
}

/// One fetch under the immediate policy after shutdown, in terms of sizes.
proof fn lemma_immediate_step<T>(s: Seq<Job<T>>, now: u64, r: Fetch<T>, rest: Seq<Job<T>>)
    requires
        fetched(s, true, OnPoolDropBehavior::RunPendingScheduledImmediately, now, r, rest),
    ensures
        s.len() > 0 ==> r is Run && rest.len() == s.len() - 1,
        s.len() == 0 ==> r is Stop && rest.len() == 0,
{
}

/// The induction of `lemma_immediate_policy_drains`, from the `k`-th fetch on.
proof fn lemma_immediate_policy_drains_from<T>(
    states: Seq<Seq<Job<T>>>,
    results: Seq<Fetch<T>>,
    n: int,
    k: int,
)
    requires
        0 <= k <= results.len(),
        states.len() == results.len() + 1,
        k <= n ==> states[k].len() == n - k,
        k > n ==> states[k].len() == 0,
        forall|j: int|
            0 <= j < results.len() ==> (#[trigger] states[j].len() > 0 ==> results[j] is Run
                && states[j + 1].len() == states[j].len() - 1),
        forall|j: int|
            0 <= j < results.len() ==> (#[trigger] states[j].len() == 0 ==> results[j] is Stop
                && states[j + 1].len() == 0),
    ensures
        forall|j: int| k <= j < results.len() && j < n ==> #[trigger] results[j] is Run,
        forall|j: int| k <= j < results.len() && j >= n ==> #[trigger] results[j] is Stop,
    decreases results.len() - k,
{
    if k < results.len() {
        assert(states[k].len() >= 0);
        lemma_immediate_policy_drains_from(states, results, n, k + 1);
    }
}

/// Under the immediate policy, once shutdown has begun, the queued jobs are
/// handed out one after another whatever the instants of the fetches, and
/// then the workers stop: of a run of fetches, the first `n` run a job and
/// the others stop, where `n` is the number of jobs queued at the start.
pub proof fn lemma_immediate_policy_drains<T>(
    states: Seq<Seq<Job<T>>>,
    results: Seq<Fetch<T>>,
    nows: Seq<u64>,
)
    requires
        states.len() == results.len() + 1,
        nows.len() == results.len(),
        forall|k: int|
            0 <= k < results.len() ==> fetched(
                #[trigger] states[k],
                true,
                OnPoolDropBehavior::RunPendingScheduledImmediately,
                nows[k],
                results[k],
                states[k + 1],
            ),
    ensures
        forall|k: int| 0 <= k < results.len() && k < states[0].len() ==> #[trigger] results[k] is Run,
        forall|k: int|
            0 <= k < results.len() && k >= states[0].len() ==> #[trigger] results[k] is Stop,
{
    assert forall|j: int| 0 <= j < results.len() implies (#[trigger] states[j].len() > 0
        ==> results[j] is Run && states[j + 1].len() == states[j].len() - 1) && (states[j].len()
        == 0 ==> results[j] is Stop && states[j + 1].len() == 0) by {
        lemma_immediate_step(states[j], nows[j], results[j], states[j + 1]);
    }
    lemma_immediate_policy_drains_from(states, results, states[0].len() as int, 0);
}

/// Once shutdown has begun no job is queued any more: a resubmission, such
/// as a recurring job's next run, is dropped and leaves the queue as it was.
pub proof fn lemma_nothing_queued_after_shutdown<T>(
    s: Seq<Job<T>>,
    job: Job<T>,
    r: Submitted,
    rest: Seq<Job<T>>,
)
    requires
        submitted(s, true, job, r, rest),
    ensures
        r == Submitted::Dropped,
        rest == s,
{
}

} // verus!
