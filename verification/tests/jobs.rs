use animatrix::base::{generate_id, JobStatus, ProjectId};
use animatrix::jobs::{Job, JobManager, JobQueue, JobWorker};

#[test]
fn job_starts_queued() {
    let project_id = ProjectId(generate_id());
    let job = Job::new(project_id, "generate_scene");
    assert_eq!(job.status, JobStatus::Queued);
    assert_eq!(job.progress, 0);
}

#[test]
fn job_lifecycle_transitions_state() {
    let project_id = ProjectId(generate_id());
    let mut job = JobManager::new_scene_job(project_id);

    job.start();
    assert_eq!(job.status, JobStatus::Running);
    assert_eq!(job.progress, 25);

    job.advance(80);
    assert_eq!(job.progress, 80);

    job.complete();
    assert_eq!(job.status, JobStatus::Completed);
    assert_eq!(job.progress, 100);
}

#[test]
fn job_queue_tracks_pending_work() {
    let mut queue = JobQueue::new();
    let project_id = ProjectId(generate_id());
    queue.enqueue(JobManager::new_scene_job(project_id));
    assert_eq!(queue.len(), 1);

    let next = queue.next_pending().unwrap();
    assert_eq!(next.job_type, "scene_generation");
    assert!(queue.is_empty());
}

#[test]
fn job_worker_processes_queued_job() {
    let project_id = ProjectId(generate_id());
    let mut queue = JobQueue::new();
    queue.enqueue(JobManager::new_render_job(project_id));

    let worker = JobWorker::new(project_id);
    let completed = worker.run_one(&mut queue).expect("queue should contain a job");
    assert_eq!(completed.status, JobStatus::Completed);
    assert_eq!(completed.progress, 100);
    assert_eq!(completed.attempts, 1);
}

#[test]
fn job_worker_queues_render_progress_steps() {
    let project_id = ProjectId(generate_id());
    let mut queue = JobQueue::new();
    queue.enqueue(JobManager::new_render_job(project_id));

    let worker = JobWorker::new(project_id);
    let completed = worker.run_one(&mut queue).expect("queue should contain a job");

    assert!(matches!(completed.status, JobStatus::Completed));
    assert!(completed.progress >= 90);
    assert_eq!(completed.attempts, 1);
}

#[test]
fn advance_caps_progress_and_leaves_finished_jobs() {
    let mut job = Job::new(ProjectId(1), "x");
    job.advance(150);
    assert_eq!(job.status, JobStatus::Running);
    assert_eq!(job.progress, 99);
    job.fail();
    assert_eq!(job.status, JobStatus::Failed);
    assert_eq!(job.progress, 0);
    assert!(job.finished_at.is_some());
    job.advance(40);
    assert_eq!(job.status, JobStatus::Failed);
    assert_eq!(job.progress, 0);
}

#[test]
fn queue_hands_out_queued_jobs_first_in_first_out() {
    let mut queue = JobQueue::new();
    let mut running = Job::new(ProjectId(7), "running");
    running.start();
    queue.enqueue(running);
    queue.enqueue(Job::new(ProjectId(7), "first"));
    queue.enqueue(Job::new(ProjectId(7), "second"));
    assert_eq!(queue.next_pending().unwrap().job_type, "first");
    assert_eq!(queue.next_pending().unwrap().job_type, "second");
    assert!(queue.next_pending().is_none());
    assert_eq!(queue.len(), 1);
}

#[test]
fn worker_with_nothing_queued_returns_none() {
    let mut queue = JobQueue::new();
    let worker = JobWorker::new(ProjectId(3));
    assert!(worker.run_one(&mut queue).is_none());
    assert!(queue.is_empty());
}

#[test]
fn new_jobs_have_default_priority_and_no_run_times() {
    let job = JobManager::new_render_job(ProjectId(9));
    assert_eq!(job.job_type, "render_export");
    assert_eq!(job.priority, 5);
    assert_eq!(job.attempts, 0);
    assert_eq!(job.project_id, ProjectId(9));
    assert!(job.started_at.is_none() && job.finished_at.is_none());
}
