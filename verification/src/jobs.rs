//! Jobs, their lifecycle, the job queue and the worker that runs queued jobs.

use vstd::prelude::*;
use crate::base::{generate_id, is_random_id, JobId, JobStatus, ProjectId, Timestamp};
use crate::outside::now_instant;

verus! {

/// A unit of studio work; `progress` is a percentage.
#[derive(Debug)]
pub struct Job {
    pub id: JobId,
    pub project_id: ProjectId,
    pub job_type: String,
    pub status: JobStatus,
    pub priority: u8,
    pub attempts: u32,
    pub created_at: Timestamp,
    pub started_at: Option<Timestamp>,
    pub finished_at: Option<Timestamp>,
    pub progress: u8,
}

impl Clone for Job {
    fn clone(&self) -> (r: Self)
        ensures
            r == *self,
    {
        Job {
            id: self.id,
            project_id: self.project_id,
            job_type: self.job_type.clone(),
            status: self.status,
            priority: self.priority,
            attempts: self.attempts,
            created_at: self.created_at,
            started_at: self.started_at,
            finished_at: self.finished_at,
            progress: self.progress,
        }
    }
}

/// `a` and `b` are the same job, whatever their status, progress and run times.
pub open spec fn same_job(a: Job, b: Job) -> bool {
    &&& a.id == b.id
    &&& a.project_id == b.project_id
    &&& a.job_type == b.job_type
    &&& a.priority == b.priority
    &&& a.attempts == b.attempts
    &&& a.created_at == b.created_at
}

/// Whether `advance` moves a job in this status forward.
pub open spec fn is_active(status: JobStatus) -> bool {
    status is Running || status is Queued
}

impl Job {
    /// A queued job of type `job_type` for project `project_id`, with a fresh id, priority 5,
    /// no attempts and no progress.
    pub fn new(project_id: ProjectId, job_type: &str) -> (j: Job)
        ensures
            is_random_id(j.id.0),
            j.project_id == project_id,
            j.job_type@ == job_type@,
            j.status == JobStatus::Queued,
            j.priority == 5,
            j.attempts == 0,
            j.created_at.secs >= 0,
            j.started_at is None,
            j.finished_at is None,
            j.progress == 0,
    {
        Job {
            id: JobId(generate_id()),
            project_id,
            job_type: job_type.to_string(),
            status: JobStatus::Queued,
            priority: 5,
            attempts: 0,
            created_at: now_instant(),
            started_at: None,
            finished_at: None,
            progress: 0,
        }
    }

    /// Marks the job running from now, at 25 percent.
    pub fn start(&mut self)
        ensures
            same_job(*final(self), *old(self)),
            final(self).status == JobStatus::Running,
            final(self).started_at matches Some(t) && t.secs >= 0,
            final(self).finished_at == old(self).finished_at,
            final(self).progress == 25,
    {
        self.status = JobStatus::Running;
        self.started_at = Some(now_instant());
        self.progress = 25;
    }

    /// Moves a queued or running job to `percent` (at most 99) and marks it running; a job in
    /// any other status is left as it is.
    pub fn advance(&mut self, percent: u8)
        ensures
            if is_active(old(self).status) {
                &&& same_job(*final(self), *old(self))
                &&& final(self).status == JobStatus::Running
                &&& final(self).progress == if percent < 99 { percent } else { 99 }
                &&& final(self).started_at == old(self).started_at
                &&& final(self).finished_at == old(self).finished_at
            } else {
                *final(self) == *old(self)
            },
    {
        if self.status == JobStatus::Running || self.status == JobStatus::Queued {
            self.status = JobStatus::Running;
            self.progress = if percent < 99 { percent } else { 99 };
        }
    }

    /// Marks the job completed now, at 100 percent.
    pub fn complete(&mut self)
        ensures
            same_job(*final(self), *old(self)),
            final(self).status == JobStatus::Completed,
            final(self).started_at == old(self).started_at,
            final(self).finished_at matches Some(t) && t.secs >= 0,
            final(self).progress == 100,
    {
        self.status = JobStatus::Completed;
        self.finished_at = Some(now_instant());
        self.progress = 100;
    }

    /// Marks the job failed now, with its progress reset to 0.
    pub fn fail(&mut self)
        ensures
            same_job(*final(self), *old(self)),
            final(self).status == JobStatus::Failed,
            final(self).started_at == old(self).started_at,
            final(self).finished_at matches Some(t) && t.secs >= 0,
            final(self).progress == 0,
    {
        self.status = JobStatus::Failed;
        self.finished_at = Some(now_instant());
        self.progress = 0;
    }
}

/// The index of the first queued job in `s`.
pub open spec fn first_queued(s: Seq<Job>) -> Option<int>
    decreases s.len(),
{
    if s.len() == 0 {
        None
    } else {
        match first_queued(s.drop_last()) {
            Some(i) => Some(i),
            None => if s.last().status == JobStatus::Queued {
                Some(s.len() - 1)
            } else {
                None
            },
        }
    }
}

/// `first_queued` finds the first index of a queued job.
pub proof fn lemma_first_queued(s: Seq<Job>)
    ensures
        match first_queued(s) {
            Some(i) => 0 <= i < s.len() && s[i].status == JobStatus::Queued && forall|j: int|
                0 <= j < i ==> (#[trigger] s[j]).status != JobStatus::Queued,
            None => forall|j: int| 0 <= j < s.len() ==> (#[trigger] s[j]).status != JobStatus::Queued,
        },
    decreases s.len(),
{
    if s.len() > 0 {
        lemma_first_queued(s.drop_last());
        assert forall|j: int| 0 <= j < s.len() - 1 implies #[trigger] s[j] == s.drop_last()[j] by {}
    }
}

/// A first index of a queued job is what `first_queued` gives.
pub proof fn lemma_first_queued_unique(s: Seq<Job>, i: int)
    requires
        0 <= i < s.len(),
        s[i].status == JobStatus::Queued,
        forall|j: int| 0 <= j < i ==> (#[trigger] s[j]).status != JobStatus::Queued,
    ensures
        first_queued(s) == Some(i),
{
    lemma_first_queued(s);
    match first_queued(s) {
        Some(p) => {
            if p < i {
                assert(s[p].status != JobStatus::Queued);
            } else if p > i {
                assert(s[i].status != JobStatus::Queued);
            }
        },
        None => {
            assert(s[i].status != JobStatus::Queued);
        },
    }
}

/// Jobs waiting to run, in the order they were enqueued.
#[derive(Debug, Clone, Default)]
pub struct JobQueue {
    jobs: Vec<Job>,
}

impl View for JobQueue {
    type V = Seq<Job>;

    closed spec fn view(&self) -> Seq<Job> {
        self.jobs@
    }
}

impl JobQueue {
    /// An empty queue.
    pub fn new() -> (q: Self)
        ensures
            q@ == Seq::<Job>::empty(),
    {
        JobQueue { jobs: Vec::new() }
    }

    /// Adds `job` at the end of the queue.
    pub fn enqueue(&mut self, job: Job)
        ensures
            final(self)@ == old(self)@.push(job),
    {
        self.jobs.push(job);
    }

    /// Takes the first queued job out of the queue; `None`, with the queue unchanged, when no
    /// job in it is queued.
    pub fn next_pending(&mut self) -> (r: Option<Job>)
        ensures
            match first_queued(old(self)@) {
                Some(i) => r == Some(old(self)@[i]) && final(self)@ == old(self)@.remove(i),
                None => r is None && final(self)@ == old(self)@,
            },
    {
        proof { lemma_first_queued(self@); }
        if self.jobs.len() == 0 {
            return None;
        }
        let n = self.jobs.len();
        let mut i: usize = 0;
        while i < n
            invariant
                self@ == old(self)@,
                n == self@.len(),
                0 <= i <= n,
                forall|j: int| 0 <= j < i ==> (#[trigger] self@[j]).status != JobStatus::Queued,
            decreases n - i,
        {
            if self.jobs[i].status == JobStatus::Queued {
                proof { lemma_first_queued_unique(self@, i as int); }
                let job = self.jobs.remove(i);
                return Some(job);
            }
            i = i + 1;
        }
        proof {
            if let Some(p) = first_queued(self@) {
                assert(self@[p].status != JobStatus::Queued);
            }
        }
        None
    }

    /// The number of jobs in the queue.
    pub fn len(&self) -> (n: usize)
        ensures
            n == self@.len(),
    {
        self.jobs.len()
    }

    /// Whether the queue holds no job.
    pub fn is_empty(&self) -> (b: bool)
        ensures
            b == (self@.len() == 0),
    {
        self.jobs.len() == 0
    }
}

/// Jobs that were queued earlier are handed out first: enqueuing a job changes which job is
/// next only when no job in the queue was queued, and then the new job is next if it is queued.
pub proof fn law_queue_keeps_order(s: Seq<Job>, job: Job)
    ensures
        first_queued(s.push(job)) == match first_queued(s) {
            Some(i) => Some(i),
            None => if job.status == JobStatus::Queued {
                Some(s.len() as int)
            } else {
                None
            },
        },
{
    assert(s.push(job).drop_last() =~= s);
}

/// Runs the first queued job of a queue to completion.
#[derive(Debug, Clone)]
pub struct JobWorker {
    project_id: ProjectId,
}

/// `done` is `job` run to completion by a worker: one more attempt, completed at 100 percent,
/// with a start and a finish time.
pub open spec fn completed_run(job: Job, done: Job) -> bool {
    &&& done.id == job.id
    &&& done.project_id == job.project_id
    &&& done.job_type == job.job_type
    &&& done.priority == job.priority
    &&& done.created_at == job.created_at
    &&& done.attempts == job.attempts + 1
    &&& done.status == JobStatus::Completed
    &&& done.progress == 100
    &&& done.started_at matches Some(t) && t.secs >= 0
    &&& done.finished_at matches Some(t) && t.secs >= 0
}

impl JobWorker {
    /// The project that the worker serves.
    pub closed spec fn project_spec(&self) -> ProjectId {
        self.project_id
    }

    /// A worker for project `project_id`.
    pub fn new(project_id: ProjectId) -> (w: Self)
        ensures
            w.project_spec() == project_id,
    {
        JobWorker { project_id }
    }

    /// Takes the first queued job out of `queue` and runs it through its progress steps to
    /// completion; `None`, with the queue unchanged, when no job is queued.
    pub fn run_one(&self, queue: &mut JobQueue) -> (r: Option<Job>)
        requires
            first_queued(old(queue)@) matches Some(i) ==> old(queue)@[i].attempts < u32::MAX,
        ensures
            match first_queued(old(queue)@) {
                Some(i) => {
                    &&& final(queue)@ == old(queue)@.remove(i)
                    &&& r matches Some(done) && completed_run(old(queue)@[i], done)
                },
                None => r is None && final(queue)@ == old(queue)@,
            },
    {
        let mut job = match queue.next_pending() {
            Some(job) => job,
            None => return None,
        };
        job.attempts = job.attempts + 1;
        job.start();
        job.advance(45);
        job.advance(75);
        job.advance(95);
        job.complete();
        Some(job)
    }
}

/// Makes the jobs of the studio's workflow.
pub struct JobManager;

impl JobManager {
    /// A queued `scene_generation` job for `project_id`.
    pub fn new_scene_job(project_id: ProjectId) -> (j: Job)
        ensures
            is_random_id(j.id.0),
            j.project_id == project_id,
            j.job_type@ == "scene_generation"@,
            j.status == JobStatus::Queued,
            j.priority == 5,
            j.attempts == 0,
            j.progress == 0,
            j.started_at is None,
            j.finished_at is None,
    {
        Job::new(project_id, "scene_generation")
    }

    /// A queued `render_export` job for `project_id`.
    pub fn new_render_job(project_id: ProjectId) -> (j: Job)
        ensures
            is_random_id(j.id.0),
            j.project_id == project_id,
            j.job_type@ == "render_export"@,
            j.status == JobStatus::Queued,
            j.priority == 5,
            j.attempts == 0,
            j.progress == 0,
            j.started_at is None,
            j.finished_at is None,
    {
        Job::new(project_id, "render_export")
    }
}

} // verus!
