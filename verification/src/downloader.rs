//! The download queue and the worker's retry policy.
//!
//! Jobs — artifact-list addresses — enter a bounded first-in-first-out queue
//! and are taken out by a single worker, one at a time, in arrival order.
//! Each job is tried up to [`MAX_ATTEMPTS`] times; after every failed
//! attempt but the last the worker sleeps, the pause doubling each time,
//! and after the last the job is dropped.  The retry loop is a state
//! machine over [`JobState`], so the policy is checked without real time.

use vstd::prelude::*;

verus! {

/// How many jobs the queue admits at once; a producer finding the queue
/// full waits for the worker instead of dropping the job.
pub const QUEUE_CAPACITY: usize = 8;

/// How often one job is attempted before it is dropped.
pub const MAX_ATTEMPTS: u8 = 9;

/// A bounded first-in-first-out queue of download jobs.  Its view is the
/// queued addresses, oldest first.
pub struct JobQueue {
    jobs: Vec<String>,
}

impl View for JobQueue {
    type V = Seq<Seq<char>>;

    closed spec fn view(&self) -> Seq<Seq<char>> {
        self.jobs.deep_view()
    }
}

impl JobQueue {
    /// An empty queue.
    pub fn new() -> (q: JobQueue)
        ensures
            q@ == Seq::<Seq<char>>::empty(),
    {
        let q = JobQueue { jobs: Vec::new() };
        proof {
            assert(q@ =~= Seq::<Seq<char>>::empty());
        }
        q
    }

    /// How many jobs are waiting.
    pub fn len(&self) -> (n: usize)
        ensures
            n == self@.len(),
    {
        self.jobs.len()
    }

    /// Appends a job at the back.  The capacity bound stands for the
    /// producer's wait: a caller may only enqueue once there is room.
    pub fn enqueue(&mut self, url: String)
        requires
            old(self)@.len() < QUEUE_CAPACITY,
        ensures
            final(self)@ == old(self)@.push(url@),
    {
        let ghost pre = self.jobs@;
        self.jobs.push(url);
        proof {
            assert forall|k: int| 0 <= k < self.jobs@.len() implies self.jobs.deep_view()[k]
                == old(self)@.push(url@)[k] by {
                assert(self.jobs.deep_view()[k] == self.jobs@[k]@);
                if k < pre.len() {
                    assert(self.jobs@[k] == pre[k]);
                } else {
                    assert(self.jobs@[k] == url);
                }
            }
            assert(self@ =~= old(self)@.push(url@));
        }
    }

    /// Removes and returns the oldest job, if any.
    pub fn dequeue(&mut self) -> (r: Option<String>)
        ensures
            old(self)@.len() == 0 ==> r is None && final(self)@ == old(self)@,
            old(self)@.len() > 0 ==> final(self)@ == old(self)@.drop_first() && (r matches Some(u)
                && u@ == old(self)@[0]),
    {
        if self.jobs.len() == 0 {
            return None;
        }
        let ghost pre = self.jobs@;
        let u = self.jobs.remove(0);
        proof {
            assert(u == pre[0]);
            assert(self.jobs@ =~= pre.drop_first());
            assert forall|k: int| 0 <= k < self.jobs@.len() implies self.jobs.deep_view()[k]
                == old(self)@.drop_first()[k] by {
                assert(self.jobs.deep_view()[k] == self.jobs@[k]@);
                assert(self.jobs@[k] == pre[k + 1]);
            }
            assert(self@ =~= old(self)@.drop_first());
        }
        Some(u)
    }
}

/// The worker's per-job state: not yet begun, on its n-th attempt, done, or
/// given up after the final attempt.
#[derive(PartialEq, Eq, Structural, Clone, Copy, Debug)]
pub enum JobState {
    Pending,
    Attempting(u8),
    Succeeded,
    Exhausted,
}

/// Attempt numbers run from one through [`MAX_ATTEMPTS`].
pub open spec fn spec_wf_job_state(s: JobState) -> bool {
    match s {
        JobState::Attempting(n) => 1 <= n <= MAX_ATTEMPTS,
        _ => true,
    }
}

/// Two raised to the given power.
pub open spec fn spec_pow2(e: nat) -> nat
    decreases e,
{
    if e == 0 {
        1
    } else {
        2 * spec_pow2((e - 1) as nat)
    }
}

proof fn lemma_pow2_pos(e: nat)
    ensures
        spec_pow2(e) >= 1,
    decreases e,
{
    if e > 0 {
        lemma_pow2_pos((e - 1) as nat);
    }
}

proof fn lemma_pow2_mono(a: nat, b: nat)
    requires
        a <= b,
    ensures
        spec_pow2(a) <= spec_pow2(b),
    decreases b,
{
    if a < b {
        lemma_pow2_mono(a, (b - 1) as nat);
        lemma_pow2_pos((b - 1) as nat);
    }
}

/// The pause after the n-th failed attempt, in seconds: two seconds after
/// the first, doubling with each further attempt.
pub open spec fn spec_backoff_secs(attempt: u8) -> nat {
    spec_pow2(attempt as nat)
}

/// Computes the pause after a failed attempt.
pub fn backoff_secs(attempt: u8) -> (s: u64)
    requires
        1 <= attempt <= MAX_ATTEMPTS,
    ensures
        s == spec_backoff_secs(attempt),
{
    let mut s: u64 = 1;
    let mut i: u8 = 0;
    while i < attempt
        invariant
            i <= attempt <= MAX_ATTEMPTS,
            s == spec_pow2(i as nat),
        decreases attempt - i,
    {
        proof {
            lemma_pow2_mono(i as nat, (MAX_ATTEMPTS - 1) as nat);
            assert(spec_pow2((MAX_ATTEMPTS - 1) as nat) == 256) by {
                reveal_with_fuel(spec_pow2, 10);
            }
        }
        s = s * 2;
        i = i + 1;
    }
    s
}

/// Where the machine moves when an attempt ends: success finishes the job;
/// failure begins the next attempt, or exhausts the job if the attempt was
/// the last.
pub open spec fn spec_next_state(s: JobState, success: bool) -> JobState {
    match s {
        JobState::Attempting(n) => if success {
            JobState::Succeeded
        } else if n < MAX_ATTEMPTS {
            JobState::Attempting((n + 1) as u8)
        } else {
            JobState::Exhausted
        },
        _ => s,
    }
}

/// The pause the worker takes after an attempt: only a failed attempt that
/// was not the last is followed by its back-off pause.
pub open spec fn spec_retry_sleep(s: JobState, success: bool) -> Option<u64> {
    match s {
        JobState::Attempting(n) => if !success && n < MAX_ATTEMPTS {
            Some(spec_backoff_secs(n) as u64)
        } else {
            None
        },
        _ => None,
    }
}

/// Starting a pending job begins its first attempt.
pub fn start_job(s: JobState) -> (r: JobState)
    requires
        s is Pending,
    ensures
        r == JobState::Attempting(1u8),
{
    JobState::Attempting(1)
}

/// Applies one attempt's outcome to the machine, returning the next state
/// and the pause, in seconds, to take before going on.
pub fn attempt_outcome(s: JobState, success: bool) -> (r: (JobState, Option<u64>))
    requires
        spec_wf_job_state(s),
    ensures
        r.0 == spec_next_state(s, success),
        r.1 == spec_retry_sleep(s, success),
        spec_wf_job_state(r.0),
{
    match s {
        JobState::Attempting(n) => {
            if success {
                (JobState::Succeeded, None)
            } else if n < MAX_ATTEMPTS {
                let d = backoff_secs(n);
                (JobState::Attempting(n + 1), Some(d))
            } else {
                (JobState::Exhausted, None)
            }
        },
        _ => (s, None),
    }
}

/// What became of one job once the worker was done with it.
pub struct JobRunReport {
    pub succeeded: bool,
    pub attempts_made: u8,
    pub total_sleep_secs: u64,
}

/// The seconds slept after the first `k` attempts all failed:
/// 2 + 4 + ... + 2^k.
pub open spec fn spec_backoff_sum(k: nat) -> nat
    decreases k,
{
    if k == 0 {
        0
    } else {
        spec_backoff_sum((k - 1) as nat) + spec_pow2(k)
    }
}

proof fn lemma_backoff_sum_bound(k: nat)
    requires
        k <= 8,
    ensures
        spec_backoff_sum(k) <= 510,
    decreases k,
{
    assert(spec_backoff_sum(8) == 510) by {
        reveal_with_fuel(spec_backoff_sum, 10);
        reveal_with_fuel(spec_pow2, 10);
    }
    if k < 8 {
        lemma_backoff_sum_mono(k, 8);
    }
}

proof fn lemma_backoff_sum_mono(a: nat, b: nat)
    requires
        a <= b,
    ensures
        spec_backoff_sum(a) <= spec_backoff_sum(b),
    decreases b,
{
    if a < b {
        lemma_backoff_sum_mono(a, (b - 1) as nat);
    }
}

/// Drives one job through the retry loop.  `outcomes[i]` tells whether the
/// `i + 1`-th attempt would succeed; the worker stops at the first success,
/// or drops the job after the final attempt, sleeping the doubled pause
/// between failed attempts but never after the last.
pub fn run_job(outcomes: &Vec<bool>) -> (r: JobRunReport)
    requires
        outcomes@.len() >= MAX_ATTEMPTS,
    ensures
        r.succeeded <==> (exists|i: int| 0 <= i < MAX_ATTEMPTS && outcomes@[i]),
        1 <= r.attempts_made <= MAX_ATTEMPTS,
        r.succeeded ==> outcomes@[r.attempts_made - 1] && (forall|i: int|
            0 <= i < r.attempts_made - 1 ==> !outcomes@[i]),
        !r.succeeded ==> r.attempts_made == MAX_ATTEMPTS && (forall|i: int|
            0 <= i < MAX_ATTEMPTS ==> !outcomes@[i]),
        r.succeeded ==> r.total_sleep_secs == spec_backoff_sum((r.attempts_made - 1) as nat),
        !r.succeeded ==> r.total_sleep_secs == spec_backoff_sum((MAX_ATTEMPTS - 1) as nat),
{
    let mut state = start_job(JobState::Pending);
    let mut total_sleep: u64 = 0;
    let mut attempt: u8 = 1;
    let mut running = true;
    while running
        invariant
            outcomes@.len() >= MAX_ATTEMPTS,
            1 <= attempt <= MAX_ATTEMPTS,
            running ==> state == JobState::Attempting(attempt),
            running ==> (forall|i: int| 0 <= i < attempt - 1 ==> !outcomes@[i]),
            running ==> total_sleep == spec_backoff_sum((attempt - 1) as nat),
            !running ==> (state is Succeeded || state is Exhausted),
            (!running && state is Succeeded) ==> outcomes@[attempt - 1] && (forall|i: int|
                0 <= i < attempt - 1 ==> !outcomes@[i]) && total_sleep == spec_backoff_sum(
                (attempt - 1) as nat,
            ),
            (!running && state is Exhausted) ==> attempt == MAX_ATTEMPTS && (forall|i: int|
                0 <= i < MAX_ATTEMPTS ==> !outcomes@[i]) && total_sleep == spec_backoff_sum(
                (MAX_ATTEMPTS - 1) as nat,
            ),
        decreases MAX_ATTEMPTS - attempt + (if running {
            1int
        } else {
            0int
        }),
    {
        let outcome = outcomes[(attempt - 1) as usize];
        let (next, pause) = attempt_outcome(state, outcome);
        state = next;
        match pause {
            Some(d) => {
                proof {
                    lemma_backoff_sum_bound((attempt - 1) as nat);
                    lemma_pow2_mono(attempt as nat, 9);
                    assert(spec_pow2(9) == 512) by {
                        reveal_with_fuel(spec_pow2, 10);
                    }
                }
                total_sleep = total_sleep + d;
            },
            None => {},
        }
        match state {
            JobState::Attempting(n) => {
                attempt = n;
            },
            _ => {
                running = false;
            },
        }
    }
    let succeeded = match state {
        JobState::Succeeded => true,
        _ => false,
    };
    JobRunReport { succeeded, attempts_made: attempt, total_sleep_secs: total_sleep }
}

} // verus!
