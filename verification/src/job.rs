//! Background jobs: what they do, when they run, and the bounded queue that
//! holds them until the worker takes them. The queue lives in memory: what
//! it holds when the process ends is lost.

use crate::error::Error;
use cron::Schedule;
use vstd::prelude::*;

verus! {

/// The schedule of a recurring job, as `cron` parsed it.
#[verifier::external_type_specification]
#[verifier::external_body]
pub struct ExSchedule(Schedule);

/// What a job does.
#[derive(Debug, Clone, Copy, PartialEq, Eq, Structural)]
pub enum JobAction {
    RerenderPage { site_id: i64, page_id: i64 },
}

/// A job: what to do, and whether to do it once or again and again.
#[derive(Debug, Clone)]
pub struct Job {
    /// The body of the job, what action to perform.
    pub action: JobAction,
    /// On what regular cadence to perform this job.
    ///
    /// If `None`, then the job is performed immediately
    /// and then discarded.
    pub schedule: Option<Schedule>,
}

impl Job {
    /// A job that runs whenever `schedule` says, again and again.
    #[inline]
    pub fn cron(action: JobAction, schedule: Schedule) -> (job: Job)
        ensures
            job == (Job { action, schedule: Some(schedule) }),
    {
        Job { action, schedule: Some(schedule) }
    }

    /// A job that runs once, as soon as the worker gets to it.
    #[inline]
    pub fn now(action: JobAction) -> (job: Job)
        ensures
            job == (Job { action, schedule: None }),
    {
        Job { action, schedule: None }
    }

    /// Whether the job runs once and is then discarded.
    pub fn is_one_shot(&self) -> (r: bool)
        ensures
            r == (self.schedule is None),
    {
        self.schedule.is_none()
    }
}

/// The limits that a scheduler is built with.
#[derive(Debug, Clone, Copy, PartialEq, Eq, Structural)]
pub struct SchedulerConfig {
    /// How many jobs the queue takes before it refuses more.
    pub queue_capacity: usize,
    /// How long the worker sleeps when it finds the queue empty, in
    /// milliseconds.
    pub poll_delay: u64,
    /// How long one run of a job may take, in milliseconds.
    pub max_processing_time: u64,
}

/// A job in the queue, with the time before which it is not to run, in
/// seconds since the epoch.
#[derive(Debug)]
pub struct QueuedJob {
    pub job: Job,
    pub not_before: i64,
}

/// The entry of a job that is to run as soon as the worker gets to it.
pub open spec fn at_once(job: Job) -> QueuedJob {
    QueuedJob { job, not_before: i64::MIN }
}

/// The job that re-renders a page once, due at once.
pub open spec fn rerender_job(site_id: i64, page_id: i64) -> QueuedJob {
    at_once(Job { action: JobAction::RerenderPage { site_id, page_id }, schedule: None })
}

/// The first job of the queue that is due at the time `now`.
pub open spec fn first_due(queue: Seq<QueuedJob>, now: i64) -> Option<int>
    decreases queue.len(),
{
    if queue.len() == 0 {
        None
    } else if queue[0].not_before <= now {
        Some(0)
    } else {
        match first_due(queue.drop_first(), now) {
            Some(i) => Some(i + 1),
            None => None,
        }
    }
}

/// The queue of jobs that wait for the worker, oldest first.
pub struct JobService {
    queue: Vec<QueuedJob>,
    config: SchedulerConfig,
}

impl View for JobService {
    type V = Seq<QueuedJob>;

    closed spec fn view(&self) -> Seq<QueuedJob> {
        self.queue@
    }
}

impl JobService {
    /// The limits that the queue was built with.
    pub closed spec fn limits(self) -> SchedulerConfig {
        self.config
    }

    /// Whether the queue refuses another job.
    pub open spec fn full(self) -> bool {
        self@.len() >= self.limits().queue_capacity
    }

    /// How many more jobs the queue takes.
    pub open spec fn room(self) -> nat {
        if self.full() {
            0
        } else {
            (self.limits().queue_capacity - self@.len()) as nat
        }
    }

    /// An empty queue with the given limits.
    pub fn new(config: SchedulerConfig) -> (jobs: JobService)
        ensures
            jobs@ == Seq::<QueuedJob>::empty(),
            jobs.limits() == config,
    {
        JobService { queue: Vec::new(), config }
    }

    /// The limits that the queue was built with.
    pub fn config(&self) -> (config: SchedulerConfig)
        ensures
            config == self.limits(),
    {
        self.config
    }

    /// How many jobs wait.
    pub fn len(&self) -> (n: usize)
        ensures
            n == self@.len(),
    {
        self.queue.len()
    }

    /// Whether the queue refuses another job.
    pub fn is_full(&self) -> (r: bool)
        ensures
            r == self.full(),
    {
        self.queue.len() >= self.config.queue_capacity
    }

    /// The action of the job at the given place of the queue, if there is
    /// one, and the time before which it is not to run.
    pub fn peek(&self, index: usize) -> (r: Option<(JobAction, i64)>)
        ensures
            index < self@.len() ==> r == Some(
                (self@[index as int].job.action, self@[index as int].not_before),
            ),
            index >= self@.len() ==> r is None,
    {
        if index < self.queue.len() {
            Some((self.queue[index].job.action, self.queue[index].not_before))
        } else {
            None
        }
    }

    /// Puts a job at the end of the queue, not to run before the given
    /// time. A full queue refuses it and stays as it is: the caller is to
    /// try again later.
    pub fn enqueue_at(&mut self, job: Job, not_before: i64) -> (r: Result<(), Error>)
        ensures
            final(self).limits() == old(self).limits(),
            old(self).full() ==> r == Err::<(), Error>(Error::QueueFull) && final(self)@
                == old(self)@,
            !old(self).full() ==> r is Ok && final(self)@ == old(self)@.push(
                (QueuedJob { job, not_before }),
            ),
    {
        if self.queue.len() >= self.config.queue_capacity {
            return Err(Error::QueueFull);
        }
        self.queue.push(QueuedJob { job, not_before });
        Ok(())
    }

    /// Puts a job at the end of the queue, to run as soon as the worker
    /// gets to it. A full queue refuses it and stays as it is.
    pub fn enqueue(&mut self, job: Job) -> (r: Result<(), Error>)
        ensures
            final(self).limits() == old(self).limits(),
            old(self).full() ==> r == Err::<(), Error>(Error::QueueFull) && final(self)@
                == old(self)@,
            !old(self).full() ==> r is Ok && final(self)@ == old(self)@.push(at_once(job)),
    {
        self.enqueue_at(job, i64::MIN)
    }

    /// Queues a job that re-renders the page once.
    pub fn queue_rerender_page(&mut self, site_id: i64, page_id: i64) -> (r: Result<(), Error>)
        ensures
            final(self).limits() == old(self).limits(),
            old(self).full() ==> r == Err::<(), Error>(Error::QueueFull) && final(self)@
                == old(self)@,
            !old(self).full() ==> r is Ok && final(self)@ == old(self)@.push(
                rerender_job(site_id, page_id),
            ),
    {
        self.enqueue(Job::now(JobAction::RerenderPage { site_id, page_id }))
    }

    /// Takes the oldest job from the queue, whenever it is due.
    pub fn dequeue(&mut self) -> (r: Option<Job>)
        ensures
            final(self).limits() == old(self).limits(),
            old(self)@.len() == 0 ==> r is None && final(self)@ == old(self)@,
            old(self)@.len() > 0 ==> r == Some(old(self)@[0].job) && final(self)@
                == old(self)@.drop_first(),
    {
        if self.queue.len() == 0 {
            return None;
        }
        let entry = self.queue.remove(0);
        assert(self.queue@ =~= old(self).queue@.drop_first());
        Some(entry.job)
    }

    /// Takes from the queue the first job that is due at the time `now`.
    pub fn take_due(&mut self, now: i64) -> (r: Option<Job>)
        ensures
            final(self).limits() == old(self).limits(),
            match first_due(old(self)@, now) {
                Some(i) => r == Some(old(self)@[i].job) && final(self)@ == old(self)@.remove(i),
                None => r is None && final(self)@ == old(self)@,
            },
    {
        let mut i: usize = 0;
        assert(self.queue@.skip(0) =~= self.queue@);
        while i < self.queue.len()
            invariant
                *self == *old(self),
                i <= self.queue.len(),
                first_due(self.queue@, now) == match first_due(self.queue@.skip(i as int), now) {
                    Some(k) => Some(k + i),
                    None => None,
                },
            decreases self.queue.len() - i,
        {
            assert(self.queue@.skip(i as int).drop_first() =~= self.queue@.skip(i + 1));
            if self.queue[i].not_before <= now {
                let entry = self.queue.remove(i);
                return Some(entry.job);
            }
            i += 1;
        }
        None
    }

    /// Puts a recurring job back at the end of the queue for its next run.
    /// The job held a place of the queue until the worker took it, so it
    /// goes back in however full the queue is.
    pub(crate) fn rearm(&mut self, job: Job, not_before: i64)
        ensures
            final(self).limits() == old(self).limits(),
            final(self)@ == old(self)@.push((QueuedJob { job, not_before })),
    {
        self.queue.push(QueuedJob { job, not_before });
    }
}

/// The latest time that the scheduler reckons with: the last second of the
/// year 9999.
pub const LATEST_TIME: i64 = 253_402_300_799;

/// The earliest time that the scheduler reckons with: the second before the
/// epoch.
pub const EARLIEST_TIME: i64 = -1;

/// The time that the scheduler takes for `now`: `now` itself, or the
/// nearest time that it reckons with where `now` lies outside.
pub open spec fn reckoned(now: i64) -> i64 {
    if now < EARLIEST_TIME {
        EARLIEST_TIME
    } else if now > LATEST_TIME {
        LATEST_TIME
    } else {
        now
    }
}

/// The first time after `after` at which the schedule fires, if it fires
/// again: both in seconds since the epoch, UTC.
pub uninterp spec fn next_run_after(schedule: Schedule, after: i64) -> Option<i64>;

/// Calls `cron::Schedule::after` with the instant `after` (seconds since
/// the epoch, UTC) and takes the first time that the iterator yields.
/// Trusted: what comes back depends on the schedule and the instant alone,
/// and a time that comes back is later than `after` (the search starts one
/// second after it, which for the earliest instant admitted is the epoch).
#[verifier::external_body]
fn next_occurrence(schedule: &Schedule, after: i64) -> (next: Option<i64>)
    requires
        EARLIEST_TIME <= after <= LATEST_TIME,
    ensures
        next == next_run_after(*schedule, after),
        next is Some ==> next->0 > after,
{
    match chrono::DateTime::from_timestamp(after, 0) {
        Some(start) => schedule.after(&start).next().map(|time| time.timestamp()),
        None => None,
    }
}

/// What the worker does next.
#[derive(Debug)]
pub enum WorkerStep {
    /// Run this job, then report how it went.
    Run(Job),
    /// Nothing is due: sleep for so many milliseconds, then look again.
    Sleep(u64),
}

/// How a run of a job ended.
#[derive(Debug, Clone, Copy, PartialEq, Eq, Structural)]
pub enum JobStatus {
    Succeeded,
    /// The run failed. A job that runs once is not tried again.
    Failed,
    /// The run took longer than a run may take, and counts as failed.
    TimedOut,
}

/// What became of a job after a run.
#[derive(Debug, Clone, Copy, PartialEq, Eq, Structural)]
pub struct JobOutcome {
    pub status: JobStatus,
    /// The time of the next run, where the job went back into the queue.
    pub next_run: Option<i64>,
}

/// How a run that took `elapsed` milliseconds ended.
pub open spec fn status_of(limits: SchedulerConfig, elapsed: u64, succeeded: bool) -> JobStatus {
    if elapsed > limits.max_processing_time {
        JobStatus::TimedOut
    } else if succeeded {
        JobStatus::Succeeded
    } else {
        JobStatus::Failed
    }
}

/// When a job that ran at the time `now` runs next: a recurring job at
/// the first time at which its schedule fires after `now`, as the
/// scheduler reckons it, if it fires again; a job that runs once never.
pub open spec fn next_run_of(job: Job, now: i64) -> Option<i64> {
    match job.schedule {
        Some(schedule) => next_run_after(schedule, reckoned(now)),
        None => None,
    }
}

/// The single consumer of the queue. It decides; the caller runs the jobs
/// and sleeps.
#[derive(Debug)]
pub struct JobWorker;

impl JobWorker {
    /// What the worker does at the time `now`: it takes the first job that
    /// is due and runs it, or sleeps for the poll delay where none is.
    pub fn poll(jobs: &mut JobService, now: i64) -> (step: WorkerStep)
        ensures
            final(jobs).limits() == old(jobs).limits(),
            match first_due(old(jobs)@, now) {
                Some(i) => step == WorkerStep::Run(old(jobs)@[i].job) && final(jobs)@
                    == old(jobs)@.remove(i),
                None => step == WorkerStep::Sleep(old(jobs).limits().poll_delay) && final(jobs)@
                    == old(jobs)@,
            },
    {
        match jobs.take_due(now) {
            Some(job) => WorkerStep::Run(job),
            None => WorkerStep::Sleep(jobs.config().poll_delay),
        }
    }

    /// Settles a job after a run, given the time of its next run as its
    /// schedule has it. A job that runs once is discarded, however the run
    /// ended. A recurring job goes back into the queue for its next run,
    /// however the run ended; where its schedule has no further time, it
    /// is discarded too.
    pub fn settle(
        jobs: &mut JobService,
        job: Job,
        next: Option<i64>,
        elapsed: u64,
        succeeded: bool,
    ) -> (outcome: JobOutcome)
        ensures
            final(jobs).limits() == old(jobs).limits(),
            outcome.status == status_of(old(jobs).limits(), elapsed, succeeded),
            outcome.next_run == if job.schedule is Some {
                next
            } else {
                None
            },
            final(jobs)@ == match outcome.next_run {
                Some(time) => old(jobs)@.push((QueuedJob { job, not_before: time })),
                None => old(jobs)@,
            },
    {
        let limits = jobs.config();
        let status = if elapsed > limits.max_processing_time {
            JobStatus::TimedOut
        } else if succeeded {
            JobStatus::Succeeded
        } else {
            JobStatus::Failed
        };
        let next_run = if job.schedule.is_some() {
            next
        } else {
            None
        };
        match next_run {
            Some(time) => {
                jobs.rearm(job, time);
            },
            None => {},
        }
        JobOutcome { status, next_run }
    }

    /// Settles a job after a run that ended at the time `now` and took
    /// `elapsed` milliseconds. A recurring job is armed again after every
    /// run, for the first time at which its schedule fires after `now`,
    /// unless it never fires again. A run that ended before the epoch is
    /// settled as one that ended in the second before it, and one that
    /// ended after `LATEST_TIME` as one that ended then.
    pub fn finish(
        jobs: &mut JobService,
        job: Job,
        now: i64,
        elapsed: u64,
        succeeded: bool,
    ) -> (outcome: JobOutcome)
        ensures
            final(jobs).limits() == old(jobs).limits(),
            outcome.status == status_of(old(jobs).limits(), elapsed, succeeded),
            outcome.next_run == next_run_of(job, now),
            match outcome.next_run {
                Some(time) => time > reckoned(now) && final(jobs)@ == old(jobs)@.push(
                    (QueuedJob { job, not_before: time }),
                ),
                None => final(jobs)@ == old(jobs)@,
            },
    {
        let after = if now < EARLIEST_TIME {
            EARLIEST_TIME
        } else if now > LATEST_TIME {
            LATEST_TIME
        } else {
            now
        };
        let next = match &job.schedule {
            Some(schedule) => next_occurrence(schedule, after),
            None => None,
        };
        Self::settle(jobs, job, next, elapsed, succeeded)
    }
}

} // verus!
