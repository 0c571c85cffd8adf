//! The studio's interactive state: the workflow area, the current selection and the
//! command language of the command-line dashboard.

use vstd::prelude::*;
use crate::base::{generate_id, is_random_id, ChannelId, ProjectId};
use crate::project::ProjectManager;
use crate::domain::{same_channel, BrandProfile, Channel, Project, StyleProfile};
use crate::outside::now_instant;
use crate::storage::AppState;
use crate::text::{
    decimal_spec, decimal_text, is_digit, law_parse_decimal_round_trip, lemma_decimal_digits,
    lemma_decimal_untrimmed, lemma_lower_idempotent, lemma_trim_lower, lower_spec, lowercase_equals, parse_usize, parse_usize_spec,
    is_trimmed, is_white_space, lemma_trim_idempotent, lemma_trim_shape, lemma_trimmed_unchanged,
    starts_with, strip_prefix, trim, trim_end_spec, trim_spec, trim_start_spec,
};

verus! {

// ---------------------------------------------------------------------------------------
// The workflow area
// ---------------------------------------------------------------------------------------

#[derive(Debug, Clone, Copy, PartialEq, Eq, Structural)]
pub enum WorkflowStatus {
    Ready,
    Running,
    Blocked,
    Complete,
}

/// The label under which a workflow status is shown.
pub open spec fn status_label_spec(s: WorkflowStatus) -> Seq<char> {
    match s {
        WorkflowStatus::Complete => "COMPLETE"@,
        WorkflowStatus::Running => "RUNNING"@,
        WorkflowStatus::Blocked => "BLOCKED"@,
        WorkflowStatus::Ready => "READY"@,
    }
}

/// The label under which a workflow status is shown.
pub fn status_label(s: WorkflowStatus) -> (l: &'static str)
    ensures
        l@ == status_label_spec(s),
{
    match s {
        WorkflowStatus::Complete => "COMPLETE",
        WorkflowStatus::Running => "RUNNING",
        WorkflowStatus::Blocked => "BLOCKED",
        WorkflowStatus::Ready => "READY",
    }
}

#[derive(Debug, Clone)]
pub struct WorkflowStep {
    pub name: String,
    pub status: WorkflowStatus,
    pub detail: String,
}

/// The production steps of a project and the step being worked on.
#[derive(Debug, Clone)]
pub struct WorkflowArea {
    pub steps: Vec<WorkflowStep>,
    pub active_step: usize,
}

/// `w` is the workflow area of `project` (or of no project): four steps, the second active.
pub open spec fn workflow_of(w: WorkflowArea, project: Option<Project>) -> bool {
    let s = w.steps@;
    &&& s.len() == 4
    &&& w.active_step == 1
    &&& s[0].name@ == "Brief + direction"@
    &&& s[1].name@ == "Script + storyboard"@
    &&& s[2].name@ == "Voice + style pass"@
    &&& s[3].name@ == "Render + export"@
    &&& s[0].status == WorkflowStatus::Complete
    &&& s[0].detail@ == "Creative intent locked"@
    &&& s[2].detail@ == "Waiting for asset approval"@
    &&& s[3].detail@ == "Needs final scene review"@
    &&& match project {
        Some(p) => {
            &&& s[1].status == WorkflowStatus::Running
            &&& s[2].status == WorkflowStatus::Ready
            &&& s[3].status == WorkflowStatus::Blocked
            &&& s[1].detail@ == "Working on "@ + p.name@
        },
        None => {
            &&& s[1].status == WorkflowStatus::Ready
            &&& s[2].status == WorkflowStatus::Ready
            &&& s[3].status == WorkflowStatus::Ready
            &&& s[1].detail@ == "Create a project to begin"@
        },
    }
}

fn step(name: &str, status: WorkflowStatus, detail: String) -> (s: WorkflowStep)
    ensures
        s.name@ == name@,
        s.status == status,
        s.detail == detail,
{
    WorkflowStep { name: name.to_string(), status, detail }
}

impl WorkflowArea {
    /// The workflow area of `project`, or of a studio without a project.
    pub fn from_project(project: Option<&Project>) -> (w: Self)
        ensures
            workflow_of(w, match project {
                Some(p) => Some(*p),
                None => None,
            }),
    {
        let (running, ready, blocked, detail) = match project {
            Some(p) => {
                let mut detail = "Working on ".to_string();
                detail.append(p.name.as_str());
                (WorkflowStatus::Running, WorkflowStatus::Ready, WorkflowStatus::Blocked, detail)
            },
            None => (
                WorkflowStatus::Ready,
                WorkflowStatus::Ready,
                WorkflowStatus::Ready,
                "Create a project to begin".to_string(),
            ),
        };
        let steps = vec![
            step("Brief + direction", WorkflowStatus::Complete, "Creative intent locked".to_string()),
            step("Script + storyboard", running, detail),
            step("Voice + style pass", ready, "Waiting for asset approval".to_string()),
            step("Render + export", blocked, "Needs final scene review".to_string()),
        ];
        WorkflowArea { steps, active_step: 1 }
    }
}

// ---------------------------------------------------------------------------------------
// Selection
// ---------------------------------------------------------------------------------------

/// The index of the first element of `s` that satisfies `p`.
pub open spec fn first_index<T>(s: Seq<T>, p: spec_fn(T) -> bool) -> Option<int>
    decreases s.len(),
{
    if s.len() == 0 {
        None
    } else {
        match first_index(s.drop_last(), p) {
            Some(i) => Some(i),
            None => if p(s.last()) {
                Some(s.len() - 1)
            } else {
                None
            },
        }
    }
}

pub proof fn lemma_first_index<T>(s: Seq<T>, p: spec_fn(T) -> bool)
    ensures
        match first_index(s, p) {
            Some(i) => 0 <= i < s.len() && p(s[i]) && forall|j: int| 0 <= j < i ==> !p(#[trigger] s[j]),
            None => forall|j: int| 0 <= j < s.len() ==> !p(#[trigger] s[j]),
        },
    decreases s.len(),
{
    if s.len() > 0 {
        lemma_first_index(s.drop_last(), p);
        assert forall|j: int| 0 <= j < s.len() - 1 implies #[trigger] s[j] == s.drop_last()[j] by {}
    }
}

pub proof fn lemma_first_index_unique<T>(s: Seq<T>, p: spec_fn(T) -> bool, i: int)
    requires
        0 <= i < s.len(),
        p(s[i]),
        forall|j: int| 0 <= j < i ==> !p(#[trigger] s[j]),
    ensures
        first_index(s, p) == Some(i),
{
    lemma_first_index(s, p);
    match first_index(s, p) {
        Some(k) => {
            if k < i {
                assert(!p(s[k]));
            } else if k > i {
                assert(!p(s[i]));
            }
        },
        None => {
            assert(!p(s[i]));
        },
    }
}

/// Whether a channel has id `id`.
pub open spec fn has_channel_id(id: ChannelId) -> spec_fn(Channel) -> bool {
    |c: Channel| c.id == id
}

/// Whether a project has id `id`.
pub open spec fn has_project_id(id: ProjectId) -> spec_fn(Project) -> bool {
    |p: Project| p.id == id
}

/// The index of the channel that a studio selects: the one with id `id` when there is one,
/// else the first channel.
pub open spec fn chosen_channel(s: Seq<Channel>, id: Option<ChannelId>) -> Option<int> {
    let by_id = match id {
        Some(id) => first_index(s, has_channel_id(id)),
        None => None,
    };
    match by_id {
        Some(i) => Some(i),
        None => if s.len() > 0 {
            Some(0)
        } else {
            None
        },
    }
}

/// The index of the project that a studio selects: the one with id `id` when there is one,
/// else the first project.
pub open spec fn chosen_project(s: Seq<Project>, id: Option<ProjectId>) -> Option<int> {
    let by_id = match id {
        Some(id) => first_index(s, has_project_id(id)),
        None => None,
    };
    match by_id {
        Some(i) => Some(i),
        None => if s.len() > 0 {
            Some(0)
        } else {
            None
        },
    }
}

fn choose_channel(channels: &Vec<Channel>, id: Option<ChannelId>) -> (r: Option<Channel>)
    ensures
        match chosen_channel(channels@, id) {
            Some(i) => r matches Some(c) && same_channel(c, channels@[i]),
            None => r is None,
        },
{
    proof {
        if let Some(id) = id {
            lemma_first_index(channels@, has_channel_id(id));
        }
    }
    if let Some(wanted) = id {
        let n = channels.len();
        let mut i: usize = 0;
        while i < n
            invariant
                id == Some(wanted),
                n == channels@.len(),
                0 <= i <= n,
                forall|j: int| 0 <= j < i ==> (#[trigger] channels@[j]).id != wanted,
            decreases n - i,
        {
            if channels[i].id == wanted {
                proof {
                    lemma_first_index_unique(channels@, has_channel_id(wanted), i as int);
                }
                return Some(channels[i].clone());
            }
            i = i + 1;
        }
    }
    if channels.len() > 0 {
        Some(channels[0].clone())
    } else {
        None
    }
}

fn choose_project(projects: &Vec<Project>, id: Option<ProjectId>) -> (r: Option<Project>)
    ensures
        match chosen_project(projects@, id) {
            Some(i) => r == Some(projects@[i]),
            None => r is None,
        },
{
    proof {
        if let Some(id) = id {
            lemma_first_index(projects@, has_project_id(id));
        }
    }
    if let Some(wanted) = id {
        let n = projects.len();
        let mut i: usize = 0;
        while i < n
            invariant
                id == Some(wanted),
                n == projects@.len(),
                0 <= i <= n,
                forall|j: int| 0 <= j < i ==> (#[trigger] projects@[j]).id != wanted,
            decreases n - i,
        {
            if projects[i].id == wanted {
                proof {
                    lemma_first_index_unique(projects@, has_project_id(wanted), i as int);
                }
                return Some(projects[i].clone());
            }
            i = i + 1;
        }
    }
    if projects.len() > 0 {
        Some(projects[0].clone())
    } else {
        None
    }
}

/// The dashboard's state: the selected channel and project and the workflow area.
#[derive(Debug, Clone)]
pub struct StudioState {
    pub selected_channel_id: Option<ChannelId>,
    pub selected_project_id: Option<ProjectId>,
    pub selected_channel: Option<Channel>,
    pub selected_project: Option<Project>,
    pub workflow: WorkflowArea,
}

/// `st` selects the channel `chosen` of `channels` (or none), and the ids agree.
pub open spec fn selects_channel(st: StudioState, channels: Seq<Channel>, chosen: Option<int>) -> bool {
    match chosen {
        Some(i) => st.selected_channel matches Some(c) && same_channel(c, channels[i])
            && st.selected_channel_id == Some(channels[i].id),
        None => st.selected_channel is None && st.selected_channel_id is None,
    }
}

/// `st` selects the project `chosen` of `projects` (or none), and the ids agree.
pub open spec fn selects_project(st: StudioState, projects: Seq<Project>, chosen: Option<int>) -> bool {
    match chosen {
        Some(i) => st.selected_project == Some(projects[i]) && st.selected_project_id == Some(
            projects[i].id,
        ),
        None => st.selected_project is None && st.selected_project_id is None,
    }
}

/// `after` is `before` with `channel` selected and the workflow area rebuilt.
pub open spec fn channel_selected(before: StudioState, after: StudioState, channel: Channel) -> bool {
    &&& after.selected_channel_id == Some(channel.id)
    &&& after.selected_channel matches Some(c) && same_channel(c, channel)
    &&& after.selected_project_id == before.selected_project_id
    &&& after.selected_project == before.selected_project
    &&& workflow_of(after.workflow, before.selected_project)
}

/// `c` is the placeholder channel selected with a project when no channel is: `Unassigned`,
/// under a fresh id, in a neutral tone and the default style, created and updated now.
pub open spec fn placeholder_channel(c: Channel) -> bool {
    &&& is_random_id(c.id.0)
    &&& c.name@ == "Unassigned"@
    &&& c.brand.name@ == "Unassigned"@
    &&& c.brand.tagline@ == "No channel selected"@
    &&& c.brand.tone@ == "neutral"@
    &&& c.style.art_style@ == "default"@
    &&& c.style.color_palette@.len() == 1
    &&& c.style.color_palette@[0]@ == "#111827"@
    &&& c.style.camera_style@ == "default"@
    &&& c.style.pacing@ == "medium"@
    &&& c.created_at.secs >= 0
    &&& c.updated_at.secs >= 0
}

/// `after` is `before` with `project` selected, the workflow area rebuilt for it, and an
/// `Unassigned` placeholder channel selected when none was.
pub open spec fn project_selected(before: StudioState, after: StudioState, project: Project) -> bool {
    &&& after.selected_project_id == Some(project.id)
    &&& after.selected_project == Some(project)
    &&& before.selected_channel is Some ==> {
        &&& after.selected_channel == before.selected_channel
        &&& after.selected_channel_id == before.selected_channel_id
    }
    &&& before.selected_channel is None ==> {
        &&& after.selected_channel matches Some(c) && placeholder_channel(c)
            && after.selected_channel_id == Some(c.id)
    }
    &&& workflow_of(after.workflow, Some(project))
}

/// `after` is `before` with the workflow moved one step on: the active step complete, the
/// next one running; unchanged when the active step is the last one.
pub open spec fn workflow_advanced(before: StudioState, after: StudioState) -> bool {
    let a = before.workflow.active_step as int;
    let old_steps = before.workflow.steps@;
    let new_steps = after.workflow.steps@;
    &&& after.selected_channel_id == before.selected_channel_id
    &&& after.selected_project_id == before.selected_project_id
    &&& after.selected_channel == before.selected_channel
    &&& after.selected_project == before.selected_project
    &&& new_steps.len() == old_steps.len()
    &&& a < old_steps.len() ==> after.workflow.active_step < new_steps.len()
    &&& if a + 1 >= old_steps.len() {
        after.workflow == before.workflow
    } else {
        &&& after.workflow.active_step == a + 1
        &&& new_steps[a].status == WorkflowStatus::Complete
        &&& new_steps[a + 1].status == WorkflowStatus::Running
        &&& new_steps[a].name == old_steps[a].name && new_steps[a].detail == old_steps[a].detail
        &&& new_steps[a + 1].name == old_steps[a + 1].name
        &&& new_steps[a + 1].detail == old_steps[a + 1].detail
        &&& forall|j: int| 0 <= j < new_steps.len() && j != a && j != a + 1
            ==> #[trigger] new_steps[j] == old_steps[j]
    }
}

impl StudioState {
    /// The dashboard state of `state`: its first channel and first project selected.
    pub fn from_app_state(state: &AppState) -> (st: Self)
        ensures
            selects_channel(st, state.channels@, chosen_channel(state.channels@, None)),
            selects_project(st, state.projects@, chosen_project(state.projects@, None)),
            workflow_of(st.workflow, st.selected_project),
            state.projects@.len() > 0 ==> st.selected_project == Some(state.projects@[0]),
            state.projects@.len() == 0 ==> st.selected_project is None,
            state.channels@.len() > 0 ==> st.selected_channel_id == Some(state.channels@[0].id),
            state.channels@.len() == 0 ==> st.selected_channel is None,
    {
        proof {
            law_first_project_by_default(state.projects@, None);
            law_first_channel_by_default(state.channels@, None);
        }
        Self::from_app_state_with_selection(state, None, None)
    }

    /// The dashboard state of `state`, keeping the channel and project with the given ids
    /// selected where they still exist, and otherwise selecting the first of each.
    pub fn from_app_state_with_selection(
        state: &AppState,
        selected_channel_id: Option<ChannelId>,
        selected_project_id: Option<ProjectId>,
    ) -> (st: Self)
        ensures
            selects_channel(st, state.channels@, chosen_channel(state.channels@, selected_channel_id)),
            selects_project(st, state.projects@, chosen_project(state.projects@, selected_project_id)),
            workflow_of(st.workflow, st.selected_project),
    {
        let selected_channel = choose_channel(&state.channels, selected_channel_id);
        let selected_project = choose_project(&state.projects, selected_project_id);
        let channel_id = match &selected_channel {
            Some(c) => Some(c.id),
            None => None,
        };
        let project_id = match &selected_project {
            Some(p) => Some(p.id),
            None => None,
        };
        let workflow = WorkflowArea::from_project(selected_project.as_ref());
        StudioState {
            selected_channel_id: channel_id,
            selected_project_id: project_id,
            selected_channel,
            selected_project,
            workflow,
        }
    }

    /// Selects `channel`; the workflow area is rebuilt for the selected project.
    pub fn select_channel(&mut self, channel: Channel)
        ensures
            channel_selected(*old(self), *final(self), channel),
    {
        self.selected_channel_id = Some(channel.id);
        self.selected_channel = Some(channel.clone());
        self.workflow = WorkflowArea::from_project(self.selected_project.as_ref());
    }

    /// Selects `project` and rebuilds the workflow area for it. When no channel is selected,
    /// an `Unassigned` placeholder channel with a fresh id is selected with it.
    pub fn select_project(&mut self, project: Project)
        ensures
            project_selected(*old(self), *final(self), project),
    {
        self.selected_project_id = Some(project.id);
        self.selected_project = Some(project.clone());
        if self.selected_channel.is_none() {
            let channel = Channel {
                id: ChannelId(generate_id()),
                name: "Unassigned".to_string(),
                brand: BrandProfile {
                    name: "Unassigned".to_string(),
                    tagline: "No channel selected".to_string(),
                    tone: "neutral".to_string(),
                },
                style: StyleProfile {
                    art_style: "default".to_string(),
                    color_palette: vec!["#111827".to_string()],
                    camera_style: "default".to_string(),
                    pacing: "medium".to_string(),
                },
                created_at: now_instant(),
                updated_at: now_instant(),
            };
            self.selected_channel_id = Some(channel.id);
            self.selected_channel = Some(channel);
        }
        self.workflow = WorkflowArea::from_project(Some(&project));
    }

    /// Marks the active step complete and the next one running, unless the active step is
    /// the last one.
    pub fn advance_workflow(&mut self)
        requires
            old(self).workflow.active_step < usize::MAX,
        ensures
            workflow_advanced(*old(self), *final(self)),
    {
        if self.workflow.active_step + 1 >= self.workflow.steps.len() {
            return;
        }
        let current = self.workflow.active_step;
        let mut done = self.workflow.steps.remove(current);
        done.status = WorkflowStatus::Complete;
        self.workflow.steps.insert(current, done);
        self.workflow.active_step = current + 1;
        let next = current + 1;
        let mut running = self.workflow.steps.remove(next);
        running.status = WorkflowStatus::Running;
        self.workflow.steps.insert(next, running);
    }
}

// ---------------------------------------------------------------------------------------
// Commands
// ---------------------------------------------------------------------------------------

/// A command of the command-line dashboard.
#[derive(Debug, Clone, PartialEq, Eq)]
pub enum CliCommand {
    Help,
    List,
    Advance,
    Render,
    SelectProject(usize),
    SelectChannel(usize),
    NewProject(String),
    NewChannel(String),
    Quit,
}

/// A command as its parts' values.
pub enum CommandView {
    Help,
    List,
    Advance,
    Render,
    SelectProject(usize),
    SelectChannel(usize),
    NewProject(Seq<char>),
    NewChannel(Seq<char>),
    Quit,
}

impl View for CliCommand {
    type V = CommandView;

    open spec fn view(&self) -> CommandView {
        match self {
            CliCommand::Help => CommandView::Help,
            CliCommand::List => CommandView::List,
            CliCommand::Advance => CommandView::Advance,
            CliCommand::Render => CommandView::Render,
            CliCommand::SelectProject(i) => CommandView::SelectProject(*i),
            CliCommand::SelectChannel(i) => CommandView::SelectChannel(*i),
            CliCommand::NewProject(n) => CommandView::NewProject(n@),
            CliCommand::NewChannel(n) => CommandView::NewChannel(n@),
            CliCommand::Quit => CommandView::Quit,
        }
    }
}

/// What `project <rest>` or `channel <rest>` means: an index selects (when in range), any
/// other text names a new one.
pub open spec fn select_or_new_spec(
    rest: Seq<char>,
    count: usize,
    what: Seq<char>,
    select: bool,
) -> Result<CommandView, Seq<char>> {
    let t = trim_spec(rest);
    if t.len() == 0 {
        Err(what + " requires a name"@)
    } else {
        match parse_usize_spec(t) {
            Some(i) => if i >= count {
                Err(what + " index out of range: "@ + decimal_spec(i as nat))
            } else if select {
                Ok(CommandView::SelectProject(i))
            } else {
                Ok(CommandView::SelectChannel(i))
            },
            None => if select {
                Ok(CommandView::NewProject(t))
            } else {
                Ok(CommandView::NewChannel(t))
            },
        }
    }
}

/// What `new project <rest>` or `new channel <rest>` means.
pub open spec fn new_named_spec(rest: Seq<char>, what: Seq<char>, project: bool) -> Result<CommandView, Seq<char>> {
    let t = trim_spec(rest);
    if t.len() == 0 {
        Err("new "@ + what + " requires a name"@)
    } else if project {
        Ok(CommandView::NewProject(t))
    } else {
        Ok(CommandView::NewChannel(t))
    }
}

/// The meaning of a command line, given how many channels and projects there are.
pub open spec fn parse_command_spec(input: Seq<char>, channel_count: usize, project_count: usize) -> Result<CommandView, Seq<char>> {
    let n = trim_spec(input);
    let lower = lower_spec(n);
    if n.len() == 0 {
        Ok(CommandView::List)
    } else if lower == "help"@ {
        Ok(CommandView::Help)
    } else if lower == "list"@ {
        Ok(CommandView::List)
    } else if lower == "advance"@ {
        Ok(CommandView::Advance)
    } else if lower == "render"@ {
        Ok(CommandView::Render)
    } else if lower == "quit"@ || lower == "exit"@ {
        Ok(CommandView::Quit)
    } else if starts_with(n, "project "@) {
        select_or_new_spec(n.skip("project "@.len() as int), project_count, "project"@, true)
    } else if starts_with(n, "channel "@) {
        select_or_new_spec(n.skip("channel "@.len() as int), channel_count, "channel"@, false)
    } else if starts_with(n, "new project "@) {
        new_named_spec(n.skip("new project "@.len() as int), "project"@, true)
    } else if starts_with(n, "new channel "@) {
        new_named_spec(n.skip("new channel "@.len() as int), "channel"@, false)
    } else {
        Err("unknown command: "@ + n)
    }
}

/// `r` is the result `spec` describes.
pub open spec fn command_result_is(r: Result<CliCommand, String>, spec: Result<CommandView, Seq<char>>) -> bool {
    match r {
        Ok(c) => spec == Ok::<CommandView, Seq<char>>(c@),
        Err(m) => spec == Err::<CommandView, Seq<char>>(m@),
    }
}

fn message(parts: &str, tail: &str) -> (m: String)
    ensures
        m@ == parts@ + tail@,
{
    let mut m = parts.to_string();
    m.append(tail);
    m
}

fn select_or_new(rest: &str, count: usize, what: &str, select: bool) -> (r: Result<CliCommand, String>)
    ensures
        command_result_is(r, select_or_new_spec(rest@, count, what@, select)),
{
    let trimmed = trim(rest);
    if trimmed.unicode_len() == 0 {
        return Err(message(what, " requires a name"));
    }
    match parse_usize(trimmed) {
        Some(index) => {
            if index >= count {
                let mut m = message(what, " index out of range: ");
                m.append(decimal_text(index).as_str());
                return Err(m);
            }
            if select {
                Ok(CliCommand::SelectProject(index))
            } else {
                Ok(CliCommand::SelectChannel(index))
            }
        },
        None => {
            if select {
                Ok(CliCommand::NewProject(trimmed.to_string()))
            } else {
                Ok(CliCommand::NewChannel(trimmed.to_string()))
            }
        },
    }
}

fn new_named(rest: &str, what: &str, project: bool) -> (r: Result<CliCommand, String>)
    ensures
        command_result_is(r, new_named_spec(rest@, what@, project)),
{
    let trimmed = trim(rest);
    if trimmed.unicode_len() == 0 {
        let mut m = "new ".to_string();
        m.append(what);
        m.append(" requires a name");
        return Err(m);
    }
    if project {
        Ok(CliCommand::NewProject(trimmed.to_string()))
    } else {
        Ok(CliCommand::NewChannel(trimmed.to_string()))
    }
}

/// Reads a command line. An empty line lists the dashboard; the words `help`, `list`,
/// `advance`, `render`, `quit` and `exit` are read in any case; `project <index>` and
/// `channel <index>` select by index (an error when it is out of range), and with any other
/// text, like `new project <name>` and `new channel <name>`, create one of that name.
pub fn parse_command(input: &str, channel_count: usize, project_count: usize) -> (r: Result<CliCommand, String>)
    ensures
        command_result_is(r, parse_command_spec(input@, channel_count, project_count)),
{
    let normalized = trim(input);
    if normalized.unicode_len() == 0 {
        return Ok(CliCommand::List);
    }
    if lowercase_equals(normalized, "help") {
        return Ok(CliCommand::Help);
    }
    if lowercase_equals(normalized, "list") {
        return Ok(CliCommand::List);
    }
    if lowercase_equals(normalized, "advance") {
        return Ok(CliCommand::Advance);
    }
    if lowercase_equals(normalized, "render") {
        return Ok(CliCommand::Render);
    }
    if lowercase_equals(normalized, "quit") || lowercase_equals(normalized, "exit") {
        return Ok(CliCommand::Quit);
    }
    if let Some(rest) = strip_prefix(normalized, "project ") {
        return select_or_new(rest, project_count, "project", true);
    }
    if let Some(rest) = strip_prefix(normalized, "channel ") {
        return select_or_new(rest, channel_count, "channel", false);
    }
    if let Some(rest) = strip_prefix(normalized, "new project ") {
        return new_named(rest, "project", true);
    }
    if let Some(rest) = strip_prefix(normalized, "new channel ") {
        return new_named(rest, "channel", false);
    }
    Err(message("unknown command: ", normalized))
}


// ---------------------------------------------------------------------------------------
// Handling commands
// ---------------------------------------------------------------------------------------

/// What the dashboard does for a command after the state has been updated: the outside
/// work (showing, persisting, rendering) that is left to do.
#[derive(Debug)]
pub enum CommandAction {
    /// Nothing more to do.
    Continue,
    /// Show the list of commands.
    ShowHelp,
    /// Show the dashboard of the stored state.
    ShowDashboard,
    /// Render `project` of `channel`.
    Render { project: Project, channel: Channel },
    /// There is no project or no channel to render.
    NothingToRender,
    /// Store this new channel, then select it.
    SaveChannel(Channel),
    /// Store this new project, then select it.
    SaveProject(Project),
    /// Leave the dashboard.
    Quit,
}

/// The project a render would use: the selected one, else the first stored one.
pub open spec fn render_project(st: StudioState, projects: Seq<Project>) -> Option<Project> {
    match st.selected_project {
        Some(p) => Some(p),
        None => if projects.len() > 0 {
            Some(projects[0])
        } else {
            None
        },
    }
}

/// The channel a render or a new project would use: the selected one, else the first stored one.
pub open spec fn working_channel(st: StudioState, channels: Seq<Channel>) -> Option<Channel> {
    match st.selected_channel {
        Some(c) => Some(c),
        None => if channels.len() > 0 {
            Some(channels[0])
        } else {
            None
        },
    }
}

/// The records a studio starts with when it holds no channel: the `Animatrix Studio`
/// channel and its `Pilot Episode` project.
pub fn starter_records(state: &AppState) -> (r: Option<(Channel, Project)>)
    ensures
        match r {
            Some((c, p)) => {
                &&& state.channels@.len() == 0
                &&& c.name@ == "Animatrix Studio"@
                &&& c.brand.tagline@ == "AI video production"@
                &&& p.channel_id == c.id
                &&& p.name@ == "Pilot Episode"@
                &&& p.description@ == "Long-form explainer pipeline"@
            },
            None => state.channels@.len() > 0,
        },
{
    if state.channels.len() > 0 {
        return None;
    }
    let channel = ProjectManager::new_channel("Animatrix Studio", "AI video production");
    let project = ProjectManager::create_project(&channel, "Pilot Episode", "Long-form explainer pipeline");
    Some((channel, project))
}

impl StudioState {
    /// Applies `command` to the dashboard state, with `state` the stored channels and
    /// projects, and says what outside work is left. Selections by index take the stored
    /// record at that index (nothing changes when there is none); new channels and projects
    /// are made here and selected once stored.
    pub fn plan_command(&mut self, command: CliCommand, state: &AppState) -> (a: CommandAction)
        requires
            command is Advance ==> old(self).workflow.active_step < usize::MAX,
        ensures
            match command {
                CliCommand::Help => a is ShowHelp && *final(self) == *old(self),
                CliCommand::List => a is ShowDashboard && *final(self) == *old(self),
                CliCommand::Advance => a is Continue && workflow_advanced(*old(self), *final(self)),
                CliCommand::Render => {
                    &&& *final(self) == *old(self)
                    &&& match (render_project(*old(self), state.projects@), working_channel(*old(self), state.channels@)) {
                        (Some(p), Some(c)) => a matches CommandAction::Render { project, channel }
                            && project == p && same_channel(channel, c),
                        _ => a is NothingToRender,
                    }
                },
                CliCommand::SelectProject(i) => {
                    &&& a is Continue
                    &&& if i < state.projects@.len() {
                        project_selected(*old(self), *final(self), state.projects@[i as int])
                    } else {
                        *final(self) == *old(self)
                    }
                },
                CliCommand::SelectChannel(i) => {
                    &&& a is Continue
                    &&& if i < state.channels@.len() {
                        channel_selected(*old(self), *final(self), state.channels@[i as int])
                    } else {
                        *final(self) == *old(self)
                    }
                },
                CliCommand::NewChannel(name) => {
                    &&& *final(self) == *old(self)
                    &&& a matches CommandAction::SaveChannel(c) && c.name@ == name@
                        && c.brand.tagline@ == "Created from CLI"@
                },
                CliCommand::NewProject(name) => {
                    &&& *final(self) == *old(self)
                    &&& a matches CommandAction::SaveProject(p) && p.name@ == name@
                        && p.description@ == "Created from CLI"@
                        && match working_channel(*old(self), state.channels@) {
                            Some(c) => p.channel_id == c.id,
                            None => is_random_id(p.channel_id.0),
                        }
                },
                CliCommand::Quit => a is Quit && *final(self) == *old(self),
            },
    {
        match command {
            CliCommand::Help => CommandAction::ShowHelp,
            CliCommand::List => CommandAction::ShowDashboard,
            CliCommand::Advance => {
                self.advance_workflow();
                CommandAction::Continue
            },
            CliCommand::Render => {
                let project = match &self.selected_project {
                    Some(p) => Some(p.clone()),
                    None => if state.projects.len() > 0 {
                        Some(state.projects[0].clone())
                    } else {
                        None
                    },
                };
                let channel = match &self.selected_channel {
                    Some(c) => Some(c.clone()),
                    None => if state.channels.len() > 0 {
                        Some(state.channels[0].clone())
                    } else {
                        None
                    },
                };
                match (project, channel) {
                    (Some(project), Some(channel)) => CommandAction::Render { project, channel },
                    _ => CommandAction::NothingToRender,
                }
            },
            CliCommand::SelectProject(i) => {
                if i < state.projects.len() {
                    self.select_project(state.projects[i].clone());
                }
                CommandAction::Continue
            },
            CliCommand::SelectChannel(i) => {
                if i < state.channels.len() {
                    self.select_channel(state.channels[i].clone());
                }
                CommandAction::Continue
            },
            CliCommand::NewChannel(name) => {
                CommandAction::SaveChannel(ProjectManager::new_channel(name.as_str(), "Created from CLI"))
            },
            CliCommand::NewProject(name) => {
                let channel = match &self.selected_channel {
                    Some(c) => c.clone(),
                    None => if state.channels.len() > 0 {
                        state.channels[0].clone()
                    } else {
                        ProjectManager::new_channel("Default Channel", "Created from CLI")
                    },
                };
                CommandAction::SaveProject(
                    ProjectManager::create_project(&channel, name.as_str(), "Created from CLI"),
                )
            },
            CliCommand::Quit => CommandAction::Quit,
        }
    }

    /// Marks the last workflow step complete and makes it the active one, after a render.
    pub fn mark_render_complete(&mut self)
        requires
            old(self).workflow.steps@.len() > 0,
        ensures
            final(self).selected_channel_id == old(self).selected_channel_id,
            final(self).selected_project_id == old(self).selected_project_id,
            final(self).selected_channel == old(self).selected_channel,
            final(self).selected_project == old(self).selected_project,
            ({
                let before = old(self).workflow.steps@;
                let after = final(self).workflow.steps@;
                let last = before.len() - 1;
                &&& after.len() == before.len()
                &&& final(self).workflow.active_step == last
                &&& after[last].status == WorkflowStatus::Complete
                &&& after[last].name == before[last].name
                &&& after[last].detail == before[last].detail
                &&& forall|j: int| 0 <= j < last ==> #[trigger] after[j] == before[j]
            }),
    {
        let last = self.workflow.steps.len() - 1;
        let mut step = self.workflow.steps.remove(last);
        step.status = WorkflowStatus::Complete;
        self.workflow.steps.push(step);
        self.workflow.active_step = last;
        assert(self.workflow.steps@.len() == last + 1);
    }
}


/// Keeping a selection: when a channel with the wanted id is stored, the studio selects a
/// channel with that id.
pub proof fn law_selection_keeps_channel(channels: Seq<Channel>, id: ChannelId, k: int)
    requires
        0 <= k < channels.len(),
        channels[k].id == id,
    ensures
        chosen_channel(channels, Some(id)) matches Some(i) && channels[i].id == id,
{
    lemma_first_index(channels, has_channel_id(id));
    assert(has_channel_id(id)(channels[k]));
}

/// Keeping a selection: when a project with the wanted id is stored, the studio selects a
/// project with that id.
pub proof fn law_selection_keeps_project(projects: Seq<Project>, id: ProjectId, k: int)
    requires
        0 <= k < projects.len(),
        projects[k].id == id,
    ensures
        chosen_project(projects, Some(id)) matches Some(i) && projects[i].id == id,
{
    lemma_first_index(projects, has_project_id(id));
    assert(has_project_id(id)(projects[k]));
}

/// `project <i>`, with `i` written in decimal and below the number of projects, selects
/// project `i`.
pub proof fn law_project_index_command(i: usize, channel_count: usize, project_count: usize)
    requires
        i < project_count,
    ensures
        parse_command_spec("project "@ + decimal_spec(i as nat), channel_count, project_count)
            == Ok::<CommandView, Seq<char>>(CommandView::SelectProject(i)),
{
    reveal_strlit("project ");
    reveal_strlit("help");
    reveal_strlit("list");
    reveal_strlit("advance");
    reveal_strlit("render");
    reveal_strlit("quit");
    reveal_strlit("exit");
    let d = decimal_spec(i as nat);
    let line = "project "@ + d;
    lemma_decimal_digits(i as nat);
    lemma_decimal_untrimmed(i as nat);
    law_parse_decimal_round_trip(i);
    assert(line[0] == 'p');
    assert(line[line.len() - 1] == d[d.len() - 1]);
    assert(is_digit(d[d.len() - 1]));
    assert(trim_start_spec(line) == line);
    assert(trim_end_spec(line) == line);
    assert(line.len() >= 9);
    assert(lower_spec(line).len() == line.len());
    assert(line.subrange(0, 8) =~= "project "@);
    assert(line.skip(8) =~= d);
}

/// `channel <i>`, with `i` written in decimal and below the number of channels, selects
/// channel `i`.
pub proof fn law_channel_index_command(i: usize, channel_count: usize, project_count: usize)
    requires
        i < channel_count,
    ensures
        parse_command_spec("channel "@ + decimal_spec(i as nat), channel_count, project_count)
            == Ok::<CommandView, Seq<char>>(CommandView::SelectChannel(i)),
{
    reveal_strlit("channel ");
    reveal_strlit("project ");
    reveal_strlit("help");
    reveal_strlit("list");
    reveal_strlit("advance");
    reveal_strlit("render");
    reveal_strlit("quit");
    reveal_strlit("exit");
    let d = decimal_spec(i as nat);
    let line = "channel "@ + d;
    lemma_decimal_digits(i as nat);
    lemma_decimal_untrimmed(i as nat);
    law_parse_decimal_round_trip(i);
    assert(line[0] == 'c');
    assert(line[line.len() - 1] == d[d.len() - 1]);
    assert(is_digit(d[d.len() - 1]));
    assert(trim_start_spec(line) == line);
    assert(trim_end_spec(line) == line);
    assert(line.len() >= 9);
    assert(lower_spec(line).len() == line.len());
    assert(line.subrange(0, 8) =~= "channel "@);
    assert(!starts_with(line, "project "@)) by {
        assert(line.subrange(0, 8)[0] == 'c');
    }
    assert(line.skip(8) =~= d);
}

/// After a keyword that ends in a space, a trimmed command line still holds a character that
/// is not white space, and what follows the keyword trims to a name that is not empty.
proof fn lemma_keyword_rest(n: Seq<char>, keyword: Seq<char>)
    requires
        is_trimmed(n),
        starts_with(n, keyword),
        keyword.len() > 0,
        keyword.last() == ' ',
    ensures
        trim_spec(n.skip(keyword.len() as int)).len() > 0,
        is_trimmed(trim_spec(n.skip(keyword.len() as int))),
{
    let k = keyword.len() as int;
    assert(n.subrange(0, k)[k - 1] == ' ');
    assert(is_white_space(n[k - 1]));
    assert(n.len() > k);
    let rest = n.skip(k);
    assert(rest.last() == n.last());
    lemma_trim_shape(rest);
}

/// The error messages that a selection by index can give start with one of its two prefixes.
proof fn lemma_select_messages(rest: Seq<char>, count: usize, what: Seq<char>, select: bool)
    requires
        what == "project"@ || what == "channel"@,
        trim_spec(rest).len() > 0,
    ensures
        select_or_new_spec(rest, count, what, select) matches Err(m) ==> starts_with(
            m,
            what + " index out of range: "@,
        ),
{
    let t = trim_spec(rest);
    match parse_usize_spec(t) {
        Some(i) => {
            let m = what + " index out of range: "@ + decimal_spec(i as nat);
            assert(m.subrange(0, (what + " index out of range: "@).len() as int) =~= what
                + " index out of range: "@);
        },
        None => {},
    }
}

/// What a command line can mean: a selection only of an index below the count, a new channel or
/// project only under a name that is not empty and is already trimmed, and an error only for an
/// unknown command or an index out of range.
pub proof fn law_parse_command_range(input: Seq<char>, channel_count: usize, project_count: usize)
    ensures
        match parse_command_spec(input, channel_count, project_count) {
            Ok(CommandView::SelectProject(i)) => i < project_count,
            Ok(CommandView::SelectChannel(i)) => i < channel_count,
            Ok(CommandView::NewProject(name)) => name.len() > 0 && trim_spec(name) == name,
            Ok(CommandView::NewChannel(name)) => name.len() > 0 && trim_spec(name) == name,
            Ok(_) => true,
            Err(m) => starts_with(m, "unknown command: "@) || starts_with(
                m,
                "project index out of range: "@,
            ) || starts_with(m, "channel index out of range: "@),
        },
{
    reveal_strlit("project ");
    reveal_strlit("channel ");
    reveal_strlit("new project ");
    reveal_strlit("new channel ");
    reveal_strlit("project");
    reveal_strlit("channel");
    reveal_strlit(" index out of range: ");
    reveal_strlit("project index out of range: ");
    reveal_strlit("channel index out of range: ");
    reveal_strlit("unknown command: ");
    let n = trim_spec(input);
    lemma_trim_shape(input);
    assert("project"@ + " index out of range: "@ =~= "project index out of range: "@);
    assert("channel"@ + " index out of range: "@ =~= "channel index out of range: "@);
    if starts_with(n, "project "@) {
        lemma_keyword_rest(n, "project "@);
        let t = trim_spec(n.skip(8));
        lemma_trimmed_unchanged(t);
        lemma_select_messages(n.skip(8), project_count, "project"@, true);
    } else if starts_with(n, "channel "@) {
        lemma_keyword_rest(n, "channel "@);
        let t = trim_spec(n.skip(8));
        lemma_trimmed_unchanged(t);
        lemma_select_messages(n.skip(8), channel_count, "channel"@, false);
    } else if starts_with(n, "new project "@) {
        lemma_keyword_rest(n, "new project "@);
        lemma_trimmed_unchanged(trim_spec(n.skip(12)));
    } else if starts_with(n, "new channel "@) {
        lemma_keyword_rest(n, "new channel "@);
        lemma_trimmed_unchanged(trim_spec(n.skip(12)));
    } else {
        let m = "unknown command: "@ + n;
        assert(m.subrange(0, 17) =~= "unknown command: "@);
    }
}

/// A command line means the same once trimmed.
pub proof fn law_parse_command_trimmed(input: Seq<char>, channel_count: usize, project_count: usize)
    ensures
        parse_command_spec(trim_spec(input), channel_count, project_count) == parse_command_spec(
            input,
            channel_count,
            project_count,
        ),
{
    lemma_trim_idempotent(input);
}

/// The counts only bound indices: a command line that means something other than a selection
/// means the same whatever the numbers of channels and projects.
pub proof fn law_parse_command_counts(
    input: Seq<char>,
    channel_count: usize,
    project_count: usize,
    other_channel_count: usize,
    other_project_count: usize,
)
    requires
        parse_command_spec(input, channel_count, project_count) is Ok,
        !(parse_command_spec(input, channel_count, project_count)->Ok_0 is SelectProject),
        !(parse_command_spec(input, channel_count, project_count)->Ok_0 is SelectChannel),
    ensures
        parse_command_spec(input, other_channel_count, other_project_count) == parse_command_spec(
            input,
            channel_count,
            project_count,
        ),
{
}

/// With no stored project of the wanted id (or none wanted), a studio selects the first stored
/// project, and none when none is stored.
pub proof fn law_first_project_by_default(s: Seq<Project>, id: Option<ProjectId>)
    requires
        id matches Some(w) ==> forall|i: int| 0 <= i < s.len() ==> (#[trigger] s[i]).id != w,
    ensures
        s.len() > 0 ==> chosen_project(s, id) == Some(0int),
        s.len() == 0 ==> chosen_project(s, id) is None,
{
    if let Some(w) = id {
        lemma_first_index(s, has_project_id(w));
        if let Some(i) = first_index(s, has_project_id(w)) {
            assert(s[i].id != w);
        }
    }
}

/// With no stored channel of the wanted id (or none wanted), a studio selects the first stored
/// channel, and none when none is stored.
pub proof fn law_first_channel_by_default(s: Seq<Channel>, id: Option<ChannelId>)
    requires
        id matches Some(w) ==> forall|i: int| 0 <= i < s.len() ==> (#[trigger] s[i]).id != w,
    ensures
        s.len() > 0 ==> chosen_channel(s, id) == Some(0int),
        s.len() == 0 ==> chosen_channel(s, id) is None,
{
    if let Some(w) = id {
        lemma_first_index(s, has_channel_id(w));
        if let Some(i) = first_index(s, has_channel_id(w)) {
            assert(s[i].id != w);
        }
    }
}

/// The command words are read in any case, with white space around them: a line that reads
/// `help`, `list`, `advance`, `render`, `quit` or `exit` once trimmed and lowered is that
/// command, whatever the counts.
pub proof fn law_command_words_any_case(input: Seq<char>, channel_count: usize, project_count: usize)
    ensures
        lower_spec(trim_spec(input)) == "help"@ ==> parse_command_spec(input, channel_count, project_count)
            == Ok::<CommandView, Seq<char>>(CommandView::Help),
        lower_spec(trim_spec(input)) == "list"@ ==> parse_command_spec(input, channel_count, project_count)
            == Ok::<CommandView, Seq<char>>(CommandView::List),
        lower_spec(trim_spec(input)) == "advance"@ ==> parse_command_spec(input, channel_count, project_count)
            == Ok::<CommandView, Seq<char>>(CommandView::Advance),
        lower_spec(trim_spec(input)) == "render"@ ==> parse_command_spec(input, channel_count, project_count)
            == Ok::<CommandView, Seq<char>>(CommandView::Render),
        lower_spec(trim_spec(input)) == "quit"@ || lower_spec(trim_spec(input)) == "exit"@
            ==> parse_command_spec(input, channel_count, project_count)
            == Ok::<CommandView, Seq<char>>(CommandView::Quit),
{
    reveal_strlit("help");
    reveal_strlit("list");
    reveal_strlit("advance");
    reveal_strlit("render");
    reveal_strlit("quit");
    reveal_strlit("exit");
    let l = lower_spec(trim_spec(input));
    assert(l.len() == trim_spec(input).len());
    if l == "list"@ {
        assert(l[0] != "help"@[0]);
    }
    if l == "advance"@ {
        assert(l.len() != "help"@.len());
        assert(l.len() != "list"@.len());
    }
    if l == "render"@ {
        assert(l.len() != "help"@.len() && l.len() != "list"@.len() && l.len() != "advance"@.len());
    }
    if l == "quit"@ {
        assert(l[0] != "help"@[0] && l[0] != "list"@[0]);
    }
    if l == "exit"@ {
        assert(l[0] != "help"@[0] && l[0] != "list"@[0]);
    }
}

/// Changing the case of a command word changes nothing: a line and its lower-case form mean
/// the same when the line is one of the command words.
pub proof fn law_command_words_ignore_case(input: Seq<char>, channel_count: usize, project_count: usize)
    requires
        ({
            let l = lower_spec(trim_spec(input));
            l == "help"@ || l == "list"@ || l == "advance"@ || l == "render"@ || l == "quit"@
                || l == "exit"@
        }),
    ensures
        parse_command_spec(input, channel_count, project_count) == parse_command_spec(
            lower_spec(input),
            channel_count,
            project_count,
        ),
{
    lemma_trim_lower(input);
    lemma_lower_idempotent(trim_spec(input));
    law_command_words_any_case(input, channel_count, project_count);
    law_command_words_any_case(lower_spec(input), channel_count, project_count);
}

} // verus!
