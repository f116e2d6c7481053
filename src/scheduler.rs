use vstd::prelude::*;
use crate::error::JobError;
use crate::healing::{ErrorContext, ErrorHealer, HealingAction};
use crate::job::Job;
use crate::text::same_text;

verus! {

/// Which backend runs a job.
#[derive(Clone, Copy, Debug, PartialEq, Eq, Structural)]
pub enum WorkerKind {
    Parser,
    Browser,
}

pub open spec fn worker_for(job: Job) -> WorkerKind {
    if job.use_browser { WorkerKind::Browser } else { WorkerKind::Parser }
}

/// Why a job was not taken in.
#[derive(Debug)]
pub enum SubmitError {
    /// The inbound queue holds as many jobs as it can.
    QueueFull(Job),
    /// The scheduler takes no more jobs.
    Closed(Job),
}

/// What became of a failed job.
#[derive(Debug)]
pub enum FollowUp {
    /// Put back at the tail of the queue.
    Requeued,
    /// The retry was dropped: the queue was full.
    Dropped(Job),
    /// To be put back once the delay has passed (see `requeue`).
    Later { job: Job, delay_ms: u64 },
    Skipped,
    Aborted,
}

/// What the scheduler decided on a failure.
#[derive(Debug)]
pub struct Failure {
    /// What the healer was told.
    pub context: ErrorContext,
    pub attempt: u32,
    pub verdict: HealingAction,
    pub follow_up: FollowUp,
}

pub type Counts = Seq<(String, u32)>;

pub open spec fn ids_unique(c: Counts) -> bool {
    forall|i: int, j: int| 0 <= i < j < c.len() ==> c[i].0@ != c[j].0@
}

/// The number of failed attempts recorded for `id`; zero when none is.
pub open spec fn count_of(c: Counts, id: Seq<char>) -> u32 {
    if exists|i: int| 0 <= i < c.len() && #[trigger] c[i].0@ == id {
        c[choose|i: int| 0 <= i < c.len() && #[trigger] c[i].0@ == id].1
    } else {
        0
    }
}

pub open spec fn has_entry(c: Counts, id: Seq<char>) -> bool {
    exists|i: int| 0 <= i < c.len() && #[trigger] c[i].0@ == id
}

/// The decisions of the job scheduler: a bounded first-in first-out queue of
/// jobs, a bound on the jobs that run at once, and the failed attempts of each
/// job id. The caller runs the jobs and reports how each ended.
pub struct SchedulerCore {
    queue: Vec<Job>,
    capacity: usize,
    in_flight: usize,
    max_concurrent: usize,
    retry_counts: Vec<(String, u32)>,
    max_retries: u32,
    closed: bool,
}

impl SchedulerCore {
    pub closed spec fn queued(&self) -> Seq<Job> {
        self.queue@
    }

    pub closed spec fn capacity_spec(&self) -> nat {
        self.capacity as nat
    }

    pub closed spec fn running(&self) -> nat {
        self.in_flight as nat
    }

    pub closed spec fn limit(&self) -> nat {
        self.max_concurrent as nat
    }

    pub closed spec fn attempts(&self, id: Seq<char>) -> u32 {
        count_of(self.retry_counts@, id)
    }

    pub closed spec fn has_attempts(&self, id: Seq<char>) -> bool {
        has_entry(self.retry_counts@, id)
    }

    pub closed spec fn retry_limit(&self) -> u32 {
        self.max_retries
    }

    pub closed spec fn is_closed(&self) -> bool {
        self.closed
    }

    /// The queue never holds more than its capacity, and no more jobs run
    /// than the bound allows.
    pub closed spec fn wf(&self) -> bool {
        &&& self.queue.len() <= self.capacity
        &&& self.in_flight <= self.max_concurrent
        &&& ids_unique(self.retry_counts@)
    }

    /// A scheduler with an empty queue of `capacity` jobs, running at most
    /// `max_concurrent` jobs at once, with `max_retries` attempts per job.
    pub fn new(capacity: usize, max_concurrent: usize, max_retries: u32) -> (r: SchedulerCore)
        requires
            capacity > 0,
        ensures
            r.wf(),
            r.queued() == Seq::<Job>::empty(),
            r.capacity_spec() == capacity,
            r.running() == 0,
            r.limit() == max_concurrent,
            r.retry_limit() == max_retries,
            !r.is_closed(),
            forall|id: Seq<char>| !r.has_attempts(id) && r.attempts(id) == 0,
    {
        let r = SchedulerCore {
            queue: Vec::new(),
            capacity,
            in_flight: 0,
            max_concurrent,
            retry_counts: Vec::new(),
            max_retries,
            closed: false,
        };
        assert(r.queue@ =~= Seq::<Job>::empty());
        r
    }

    pub fn max_retries(&self) -> (r: u32)
        ensures
            r == self.retry_limit(),
    {
        self.max_retries
    }

    /// Puts `job` at the tail of the queue, without waiting: refused when the
    /// scheduler is closed or the queue is full.
    pub fn submit(&mut self, job: Job) -> (r: Result<(), SubmitError>)
        requires
            old(self).wf(),
        ensures
            final(self).wf(),
            final(self).running() == old(self).running(),
            final(self).limit() == old(self).limit(),
            final(self).capacity_spec() == old(self).capacity_spec(),
            final(self).is_closed() == old(self).is_closed(),
            forall|id: Seq<char>| final(self).attempts(id) == old(self).attempts(id) && final(self).has_attempts(id) == old(self).has_attempts(id),
            old(self).is_closed() ==> (r matches Err(SubmitError::Closed(j)) && j == job && final(self).queued() == old(self).queued()),
            !old(self).is_closed() && old(self).queued().len() >= old(self).capacity_spec() ==> (r matches Err(SubmitError::QueueFull(j)) && j == job && final(self).queued() == old(self).queued()),
            !old(self).is_closed() && old(self).queued().len() < old(self).capacity_spec() ==> (r is Ok && final(self).queued() == old(self).queued().push(job)),
    {
        if self.closed {
            return Err(SubmitError::Closed(job));
        }
        if self.queue.len() >= self.capacity {
            return Err(SubmitError::QueueFull(job));
        }
        self.queue.push(job);
        Ok(())
    }

    /// Puts a retried job back at the tail of the queue; a full queue drops it.
    pub fn requeue(&mut self, job: Job) -> (r: Option<Job>)
        requires
            old(self).wf(),
        ensures
            final(self).wf(),
            final(self).running() == old(self).running(),
            final(self).limit() == old(self).limit(),
            final(self).capacity_spec() == old(self).capacity_spec(),
            final(self).is_closed() == old(self).is_closed(),
            forall|id: Seq<char>| final(self).attempts(id) == old(self).attempts(id) && final(self).has_attempts(id) == old(self).has_attempts(id),
            old(self).queued().len() < old(self).capacity_spec() ==> r is None && final(self).queued() == old(self).queued().push(job),
            old(self).queued().len() >= old(self).capacity_spec() ==> r == Some(job) && final(self).queued() == old(self).queued(),
    {
        if self.queue.len() >= self.capacity {
            return Some(job);
        }
        self.queue.push(job);
        None
    }

    /// Takes the job at the head of the queue, when one is waiting and fewer
    /// than the bound are running, and says which backend runs it.
    pub fn dispatch(&mut self) -> (r: Option<(Job, WorkerKind)>)
        requires
            old(self).wf(),
        ensures
            final(self).wf(),
            final(self).limit() == old(self).limit(),
            final(self).capacity_spec() == old(self).capacity_spec(),
            final(self).is_closed() == old(self).is_closed(),
            forall|id: Seq<char>| final(self).attempts(id) == old(self).attempts(id) && final(self).has_attempts(id) == old(self).has_attempts(id),
            (old(self).queued().len() > 0 && old(self).running() < old(self).limit()) ==> {
                &&& r matches Some((job, kind))
                &&& job == old(self).queued()[0]
                &&& kind == worker_for(job)
                &&& final(self).queued() == old(self).queued().drop_first()
                &&& final(self).running() == old(self).running() + 1
            },
            !(old(self).queued().len() > 0 && old(self).running() < old(self).limit()) ==> {
                &&& r is None
                &&& final(self).queued() == old(self).queued()
                &&& final(self).running() == old(self).running()
            },
    {
        if self.queue.len() == 0 || self.in_flight >= self.max_concurrent {
            return None;
        }
        let job = self.queue.remove(0);
        self.in_flight = self.in_flight + 1;
        let kind = if job.use_browser { WorkerKind::Browser } else { WorkerKind::Parser };
        assert(self.queue@ =~= old(self).queue@.drop_first());
        Some((job, kind))
    }

    fn find(&self, id: &String) -> (r: Option<usize>)
        requires
            ids_unique(self.retry_counts@),
        ensures
            r is None <==> !has_entry(self.retry_counts@, id@),
            r matches Some(i) ==> i < self.retry_counts.len() && self.retry_counts@[i as int].0@ == id@
                && count_of(self.retry_counts@, id@) == self.retry_counts@[i as int].1,
            r is None ==> count_of(self.retry_counts@, id@) == 0,
    {
        let mut i: usize = 0;
        while i < self.retry_counts.len()
            invariant
                0 <= i <= self.retry_counts.len(),
                ids_unique(self.retry_counts@),
                forall|j: int| 0 <= j < i ==> self.retry_counts@[j].0@ != id@,
            decreases self.retry_counts.len() - i,
        {
            if same_text(self.retry_counts[i].0.as_str(), id.as_str()) {
                proof {
                    let c = self.retry_counts@;
                    assert(has_entry(c, id@));
                    let k = choose|k: int| 0 <= k < c.len() && #[trigger] c[k].0@ == id@;
                    assert(k == i);
                }
                return Some(i);
            }
            i = i + 1;
        }
        None
    }

    /// A job ran to success: it leaves the running set and its failed
    /// attempts are forgotten.
    pub fn on_success(&mut self, job_id: &String)
        requires
            old(self).wf(),
            old(self).running() > 0,
        ensures
            final(self).wf(),
            final(self).running() == old(self).running() - 1,
            final(self).queued() == old(self).queued(),
            final(self).limit() == old(self).limit(),
            final(self).capacity_spec() == old(self).capacity_spec(),
            final(self).is_closed() == old(self).is_closed(),
            !final(self).has_attempts(job_id@),
            final(self).attempts(job_id@) == 0,
            forall|id: Seq<char>| id != job_id@ ==> final(self).attempts(id) == old(self).attempts(id) && final(self).has_attempts(id) == old(self).has_attempts(id),
    {
        self.in_flight = self.in_flight - 1;
        match self.find(job_id) {
            Some(i) => {
                let ghost c = self.retry_counts@;
                self.retry_counts.remove(i);
                proof {
                    let d = self.retry_counts@;
                    assert(d =~= c.remove(i as int));
                    assert forall|a: int, b: int| 0 <= a < b < d.len() implies d[a].0@ != d[b].0@ by {
                        if a >= i { assert(d[a] == c[a + 1] && d[b] == c[b + 1]); }
                        else if b >= i { assert(d[a] == c[a] && d[b] == c[b + 1]); }
                        else { assert(d[a] == c[a] && d[b] == c[b]); }
                    }
                    assert(!has_entry(d, job_id@)) by {
                        if has_entry(d, job_id@) {
                            let k = choose|k: int| 0 <= k < d.len() && #[trigger] d[k].0@ == job_id@;
                            if k >= i { assert(d[k] == c[k + 1]); } else { assert(d[k] == c[k]); }
                        }
                    }
                    assert forall|id: Seq<char>| id != job_id@ implies count_of(d, id) == count_of(c, id) && has_entry(d, id) == has_entry(c, id) by {
                        if has_entry(c, id) {
                            let k = choose|k: int| 0 <= k < c.len() && #[trigger] c[k].0@ == id;
                            assert(k != i);
                            let k2 = if k < i { k } else { k - 1 };
                            assert(d[k2] == c[k]);
                            assert(has_entry(d, id));
                            let m = choose|m: int| 0 <= m < d.len() && #[trigger] d[m].0@ == id;
                            if m >= i { assert(d[m] == c[m + 1]); } else { assert(d[m] == c[m]); }
                        }
                        if has_entry(d, id) {
                            let m = choose|m: int| 0 <= m < d.len() && #[trigger] d[m].0@ == id;
                            if m >= i { assert(d[m] == c[m + 1]); } else { assert(d[m] == c[m]); }
                        }
                    }
                }
            },
            None => {},
        }
    }

    /// A job failed: one more failed attempt is recorded for its id (none
    /// past the largest count), and the healer is told of it.
    pub fn record_failure(&mut self, job: &Job, error: JobError) -> (r: ErrorContext)
        requires
            old(self).wf(),
            old(self).running() > 0,
        ensures
            final(self).wf(),
            final(self).running() == old(self).running(),
            final(self).queued() == old(self).queued(),
            final(self).limit() == old(self).limit(),
            final(self).capacity_spec() == old(self).capacity_spec(),
            final(self).is_closed() == old(self).is_closed(),
            final(self).has_attempts(job.id@),
            final(self).attempts(job.id@) == if old(self).attempts(job.id@) < u32::MAX { (old(self).attempts(job.id@) + 1) as u32 } else { u32::MAX },
            forall|id: Seq<char>| id != job.id@ ==> final(self).attempts(id) == old(self).attempts(id) && final(self).has_attempts(id) == old(self).has_attempts(id),
            r.job_id@ == job.id@,
            r.error@ == error@,
            r.attempt == final(self).attempts(job.id@),
            r.max_attempts == old(self).retry_limit(),
    {
        let ghost c = self.retry_counts@;
        let attempt = match self.find(&job.id) {
            Some(i) => {
                let before = self.retry_counts[i].1;
                let attempt = if before < u32::MAX { before + 1 } else { u32::MAX };
                let id = self.retry_counts[i].0.clone();
                self.retry_counts.set(i, (id, attempt));
                proof {
                    let d = self.retry_counts@;
                    assert(d =~= c.update(i as int, (c[i as int].0, attempt)));
                    assert forall|a: int, b: int| 0 <= a < b < d.len() implies d[a].0@ != d[b].0@ by {
                        assert(d[a].0 == c[a].0 && d[b].0 == c[b].0);
                    }
                    assert(has_entry(d, job.id@)) by { assert(d[i as int].0@ == job.id@); }
                    let k = choose|k: int| 0 <= k < d.len() && #[trigger] d[k].0@ == job.id@;
                    assert(d[k].0@ == d[i as int].0@);
                    assert(k == i);
                    assert forall|id: Seq<char>| id != job.id@ implies count_of(d, id) == count_of(c, id) && has_entry(d, id) == has_entry(c, id) by {
                        if has_entry(c, id) {
                            let k = choose|k: int| 0 <= k < c.len() && #[trigger] c[k].0@ == id;
                            assert(d[k].0 == c[k].0);
                            assert(has_entry(d, id));
                        }
                        if has_entry(d, id) {
                            let m = choose|m: int| 0 <= m < d.len() && #[trigger] d[m].0@ == id;
                            assert(d[m].0 == c[m].0);
                            assert(has_entry(c, id));
                            assert(m != i);
                        }
                    }
                }
                attempt
            },
            None => {
                self.retry_counts.push((job.id.clone(), 1));
                proof {
                    let d = self.retry_counts@;
                    let n = c.len() as int;
                    assert(d =~= c.push((d[n].0, 1u32)));
                    assert forall|a: int, b: int| 0 <= a < b < d.len() implies d[a].0@ != d[b].0@ by {
                        if b == n { assert(d[a] == c[a]); assert(!(c[a].0@ == job.id@)); }
                    }
                    assert(has_entry(d, job.id@)) by { assert(d[n].0@ == job.id@); }
                    let k = choose|k: int| 0 <= k < d.len() && #[trigger] d[k].0@ == job.id@;
                    if k < n { assert(d[k] == c[k]); assert(has_entry(c, job.id@)); }
                    assert forall|id: Seq<char>| id != job.id@ implies count_of(d, id) == count_of(c, id) && has_entry(d, id) == has_entry(c, id) by {
                        if has_entry(c, id) {
                            let k = choose|k: int| 0 <= k < c.len() && #[trigger] c[k].0@ == id;
                            assert(d[k] == c[k]);
                            assert(has_entry(d, id));
                        }
                        if has_entry(d, id) {
                            let m = choose|m: int| 0 <= m < d.len() && #[trigger] d[m].0@ == id;
                            assert(m != n);
                            assert(d[m] == c[m]);
                            assert(has_entry(c, id));
                        }
                    }
                }
                1
            },
        };
        ErrorContext { job_id: job.id.clone(), error, attempt, max_attempts: self.max_retries }
    }

    /// Carries out a healer's verdict on a failed job, which then leaves the
    /// running set: `Retry` puts it back at the tail of the queue (a full
    /// queue drops it), `RetryAfter` hands it back with its delay, `Skip`
    /// lets it go, and `Abort` lets it go and closes the scheduler, which then
    /// drains what is queued and running.
    pub fn apply_verdict(&mut self, job: Job, verdict: HealingAction) -> (r: FollowUp)
        requires
            old(self).wf(),
            old(self).running() > 0,
        ensures
            final(self).wf(),
            final(self).running() == old(self).running() - 1,
            final(self).limit() == old(self).limit(),
            final(self).capacity_spec() == old(self).capacity_spec(),
            final(self).is_closed() == (old(self).is_closed() || verdict is Abort),
            forall|id: Seq<char>| final(self).attempts(id) == old(self).attempts(id) && final(self).has_attempts(id) == old(self).has_attempts(id),
            match verdict {
                HealingAction::Retry => if old(self).queued().len() < old(self).capacity_spec() {
                    r is Requeued && final(self).queued() == old(self).queued().push(job)
                } else {
                    r == FollowUp::Dropped(job) && final(self).queued() == old(self).queued()
                },
                HealingAction::RetryAfter(ms) => r == (FollowUp::Later { job, delay_ms: ms }) && final(self).queued() == old(self).queued(),
                HealingAction::Skip => r is Skipped && final(self).queued() == old(self).queued(),
                HealingAction::Abort => r is Aborted && final(self).queued() == old(self).queued(),
            },
    {
        let r = match verdict {
            HealingAction::Retry => match self.requeue(job) {
                None => FollowUp::Requeued,
                Some(j) => FollowUp::Dropped(j),
            },
            HealingAction::RetryAfter(ms) => FollowUp::Later { job, delay_ms: ms },
            HealingAction::Skip => FollowUp::Skipped,
            HealingAction::Abort => {
                self.closed = true;
                FollowUp::Aborted
            },
        };
        self.in_flight = self.in_flight - 1;
        r
    }

    /// A job failed with `error`: records the attempt, asks `healer`, and
    /// carries out its verdict.
    pub fn on_failure<H: ErrorHealer>(&mut self, healer: &H, job: Job, error: JobError) -> (r: Failure)
        requires
            old(self).wf(),
            old(self).running() > 0,
        ensures
            final(self).wf(),
            final(self).running() == old(self).running() - 1,
            final(self).limit() == old(self).limit(),
            final(self).capacity_spec() == old(self).capacity_spec(),
            final(self).is_closed() == (old(self).is_closed() || r.verdict is Abort),
            forall|id: Seq<char>| id != job.id@ ==> final(self).attempts(id) == old(self).attempts(id) && final(self).has_attempts(id) == old(self).has_attempts(id),
            r.context.job_id@ == job.id@,
            r.context.error@ == error@,
            r.context.attempt == r.attempt,
            r.context.max_attempts == old(self).retry_limit(),
            healer.allows(r.context, r.verdict),
            r.attempt == final(self).attempts(job.id@),
            r.attempt == if old(self).attempts(job.id@) < u32::MAX { (old(self).attempts(job.id@) + 1) as u32 } else { u32::MAX },
            match r.verdict {
                HealingAction::Retry => if old(self).queued().len() < old(self).capacity_spec() {
                    r.follow_up is Requeued && final(self).queued() == old(self).queued().push(job)
                } else {
                    r.follow_up == FollowUp::Dropped(job) && final(self).queued() == old(self).queued()
                },
                HealingAction::RetryAfter(ms) => r.follow_up == (FollowUp::Later { job, delay_ms: ms }) && final(self).queued() == old(self).queued(),
                HealingAction::Skip => r.follow_up is Skipped && final(self).queued() == old(self).queued(),
                HealingAction::Abort => r.follow_up is Aborted && final(self).queued() == old(self).queued(),
            },
    {
        let context = self.record_failure(&job, error);
        let verdict = healer.heal(&context);
        let follow_up = self.apply_verdict(job, verdict);
        Failure { attempt: context.attempt, context, verdict, follow_up }
    }

    /// Takes no more jobs; those queued and running still finish.
    pub fn close(&mut self)
        requires
            old(self).wf(),
        ensures
            final(self).wf(),
            final(self).is_closed(),
            final(self).queued() == old(self).queued(),
            final(self).running() == old(self).running(),
            final(self).limit() == old(self).limit(),
            final(self).capacity_spec() == old(self).capacity_spec(),
            forall|id: Seq<char>| final(self).attempts(id) == old(self).attempts(id) && final(self).has_attempts(id) == old(self).has_attempts(id),
    {
        self.closed = true;
    }

    /// The scheduler is closed, its queue is empty and nothing runs.
    pub fn is_drained(&self) -> (r: bool)
        ensures
            r == (self.is_closed() && self.queued().len() == 0 && self.running() == 0),
    {
        self.closed && self.queue.len() == 0 && self.in_flight == 0
    }

    pub fn running_count(&self) -> (r: usize)
        ensures
            r == self.running(),
    {
        self.in_flight
    }

    pub fn queued_count(&self) -> (r: usize)
        ensures
            r == self.queued().len(),
    {
        self.queue.len()
    }

    /// The failed attempts recorded for `job_id`.
    pub fn attempts_of(&self, job_id: &String) -> (r: u32)
        requires
            self.wf(),
        ensures
            r == self.attempts(job_id@),
    {
        match self.find(job_id) {
            Some(i) => self.retry_counts[i].1,
            None => 0,
        }
    }
}

/// However jobs are submitted, dispatched and reported, no more of them run
/// at once than the scheduler's bound, and its queue never holds more than
/// its capacity.
pub proof fn lemma_running_within_limit(s: SchedulerCore)
    requires
        s.wf(),
    ensures
        s.running() <= s.limit(),
        s.queued().len() <= s.capacity_spec(),
{
}

} // verus!
