//! Creating channels and projects, the jobs a new project starts with, and what a finished
//! render produces.

use vstd::prelude::*;
use crate::assets::{registered, Asset, AssetRegistry, AssetSource, AssetType};
use crate::base::{generate_id, is_random_id, AppError, ChannelId, JobStatus, ProjectId, ProviderKind};
use crate::domain::{BrandProfile, Channel, Project, StyleProfile};
use crate::events::EventRecord;
use crate::jobs::{completed_run, lemma_first_queued_unique, same_job, Job, JobManager, JobQueue, JobWorker};
use crate::outside::now_instant;

verus! {

/// A project just created, with the event that records it and the jobs it starts with.
#[derive(Debug)]
pub struct ProjectWorkflow {
    pub project: Project,
    pub creation_event: EventRecord,
    pub initial_jobs: Vec<Job>,
}

/// What a completed render leaves: the completed job, the output asset and its event.
#[derive(Debug)]
pub struct RenderOutcome {
    pub job: Job,
    pub asset: Asset,
    pub event: EventRecord,
}

/// Creates channels, projects and their workflows.
pub struct ProjectManager;

impl ProjectManager {
    /// A new project of `channel`, with a fresh id, created now.
    pub fn create_project(channel: &Channel, name: &str, description: &str) -> (p: Project)
        ensures
            is_random_id(p.id.0),
            p.channel_id == channel.id,
            p.name@ == name@,
            p.description@ == description@,
            p.created_at.secs >= 0,
            p.updated_at.secs >= 0,
    {
        Project {
            id: ProjectId(generate_id()),
            channel_id: channel.id,
            name: name.to_string(),
            description: description.to_string(),
            created_at: now_instant(),
            updated_at: now_instant(),
        }
    }

    /// A new channel named `name` whose brand carries `theme` as its tagline, in the studio's
    /// default professional tone and stickman explainer style.
    pub fn new_channel(name: &str, theme: &str) -> (c: Channel)
        ensures
            is_random_id(c.id.0),
            c.name@ == name@,
            c.brand.name@ == name@,
            c.brand.tagline@ == theme@,
            c.brand.tone@ == "professional"@,
            c.style.art_style@ == "stickman explainer"@,
            c.style.color_palette@.len() == 2,
            c.style.color_palette@[0]@ == "#111827"@,
            c.style.color_palette@[1]@ == "#fbbf24"@,
            c.style.camera_style@ == "center framing"@,
            c.style.pacing@ == "medium"@,
            c.created_at == c.updated_at,
            c.created_at.secs >= 0,
    {
        let now = now_instant();
        Channel {
            id: ChannelId(generate_id()),
            name: name.to_string(),
            brand: BrandProfile {
                name: name.to_string(),
                tagline: theme.to_string(),
                tone: "professional".to_string(),
            },
            style: StyleProfile {
                art_style: "stickman explainer".to_string(),
                color_palette: vec!["#111827".to_string(), "#fbbf24".to_string()],
                camera_style: "center framing".to_string(),
                pacing: "medium".to_string(),
            },
            created_at: now,
            updated_at: now,
        }
    }

    /// The jobs a new project starts with: a queued scene generation, then a queued render
    /// export.
    pub fn initial_jobs(project_id: ProjectId) -> (jobs: Vec<Job>)
        ensures
            jobs@.len() == 2,
            jobs@[0].job_type@ == "scene_generation"@,
            jobs@[1].job_type@ == "render_export"@,
            forall|i: int| 0 <= i < 2 ==> is_random_id((#[trigger] jobs@[i]).id.0)
                && jobs@[i].project_id == project_id
                && jobs@[i].status == JobStatus::Queued && jobs@[i].progress == 0
                && jobs@[i].attempts == 0,
    {
        vec![JobManager::new_scene_job(project_id), JobManager::new_render_job(project_id)]
    }

    /// What completing `job` with the render at `output_path` produces: the job completed,
    /// and the output registered as a generated video of the project, made by the local
    /// renderer. `file_size` is the output's size when the file exists.
    pub fn render_outputs(
        project: &Project,
        channel: &Channel,
        job: &Job,
        output_path: &str,
        file_size: Option<u64>,
    ) -> (r: Result<(Job, Asset), AppError>)
        ensures
            r matches Ok((done, asset)) && {
                &&& same_job(done, *job)
                &&& done.status == JobStatus::Completed
                &&& done.progress == 100
                &&& done.started_at == job.started_at
                &&& done.finished_at is Some
                &&& registered(
                    asset,
                    project.id,
                    channel.id,
                    AssetType::Video,
                    AssetSource::Generated,
                    Some(ProviderKind::Local),
                    Some("animatrix-render"@),
                    None,
                    output_path@,
                    file_size,
                )
            },
    {
        let mut completed = job.clone();
        completed.complete();
        let asset = AssetRegistry::register_asset_with_context(
            project.id,
            channel.id,
            AssetType::Video,
            AssetSource::Generated,
            Some(ProviderKind::Local),
            Some("animatrix-render".to_string()),
            None,
            output_path,
            file_size,
        )?;
        Ok((completed, asset))
    }
}

/// Runs one scene generation for each of `projects`: a queued scene job is made for every
/// project, in order, and one worker per project then runs the first queued job. The jobs come
/// back completed, one per project, in the order of the projects.
pub fn run_scene_jobs(projects: &Vec<Project>) -> (done: Vec<Job>)
    ensures
        done@.len() == projects@.len(),
        forall|i: int| 0 <= i < done@.len() ==> {
            &&& (#[trigger] done@[i]).project_id == projects@[i].id
            &&& done@[i].job_type@ == "scene_generation"@
            &&& done@[i].priority == 5
            &&& done@[i].attempts == 1
            &&& done@[i].status == JobStatus::Completed
            &&& done@[i].progress == 100
            &&& done@[i].started_at is Some
            &&& done@[i].finished_at is Some
        },
{
    let n = projects.len();
    let mut queue = JobQueue::new();
    let mut k: usize = 0;
    while k < n
        invariant
            n == projects@.len(),
            0 <= k <= n,
            queue@.len() == k,
            forall|j: int| 0 <= j < k ==> {
                &&& (#[trigger] queue@[j]).project_id == projects@[j].id
                &&& queue@[j].job_type@ == "scene_generation"@
                &&& queue@[j].priority == 5
                &&& queue@[j].attempts == 0
                &&& queue@[j].status == JobStatus::Queued
            },
        decreases n - k,
    {
        queue.enqueue(JobManager::new_scene_job(projects[k].id));
        k = k + 1;
    }
    let ghost made = queue@;
    let mut done: Vec<Job> = Vec::new();
    let mut i: usize = 0;
    while i < n
        invariant
            n == projects@.len(),
            made.len() == n,
            0 <= i <= n,
            queue@ == made.subrange(i as int, n as int),
            done@.len() == i,
            forall|j: int| 0 <= j < n ==> {
                &&& (#[trigger] made[j]).project_id == projects@[j].id
                &&& made[j].job_type@ == "scene_generation"@
                &&& made[j].priority == 5
                &&& made[j].attempts == 0
                &&& made[j].status == JobStatus::Queued
            },
            forall|j: int| 0 <= j < i ==> completed_run(made[j], #[trigger] done@[j]),
        decreases n - i,
    {
        proof {
            assert(queue@[0] == made[i as int]);
            lemma_first_queued_unique(queue@, 0);
        }
        let worker = JobWorker::new(projects[i].id);
        let r = worker.run_one(&mut queue);
        match r {
            Some(job) => {
                done.push(job);
            },
            None => {},
        }
        proof {
            assert(queue@ =~= made.subrange(i as int + 1, n as int));
        }
        i = i + 1;
    }
    done
}

} // verus!
