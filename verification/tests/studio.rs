use animatrix::base::{generate_id, ChannelId, ProjectId};
use animatrix::domain::{BrandProfile, Channel, Project, StyleProfile};
use animatrix::storage::AppState;
use animatrix::studio::{parse_command, starter_records, status_label, CliCommand, CommandAction, StudioState, WorkflowArea, WorkflowStatus};

fn channel(name: &str) -> Channel {
    let now = animatrix::base::Timestamp { secs: 1_700_000_000, nanos: 0 };
    Channel {
        id: ChannelId(generate_id()),
        name: name.to_string(),
        brand: BrandProfile { name: name.to_string(), tagline: "tagline".to_string(), tone: "bold".to_string() },
        style: StyleProfile {
            art_style: "explainer".to_string(),
            color_palette: vec!["#000000".to_string()],
            camera_style: "center".to_string(),
            pacing: "medium".to_string(),
        },
        created_at: now,
        updated_at: now,
    }
}

fn project(channel: &Channel, name: &str) -> Project {
    let now = animatrix::base::Timestamp { secs: 1_700_000_000, nanos: 0 };
    Project {
        id: ProjectId(generate_id()),
        channel_id: channel.id,
        name: name.to_string(),
        description: "Persisted narrative".to_string(),
        created_at: now,
        updated_at: now,
    }
}

#[test]
fn studio_state_builds_default_workflow() {
    let state = AppState { channels: vec![], projects: vec![] };

    let ui_state = StudioState::from_app_state(&state);
    assert_eq!(ui_state.workflow.steps.len(), 4);
    assert_eq!(ui_state.workflow.active_step, 1);
    assert_eq!(ui_state.workflow.steps[1].status, WorkflowStatus::Ready);
}

#[test]
fn refresh_preserves_selected_items_by_id() {
    let now = animatrix::base::Timestamp { secs: 1_700_000_000, nanos: 0 };
    let channel = Channel {
        id: ChannelId(generate_id()),
        name: "Brand One".to_string(),
        brand: BrandProfile {
            name: "Brand One".to_string(),
            tagline: "tagline".to_string(),
            tone: "bold".to_string(),
        },
        style: StyleProfile {
            art_style: "explainer".to_string(),
            color_palette: vec!["#000000".to_string()],
            camera_style: "center".to_string(),
            pacing: "medium".to_string(),
        },
        created_at: now,
        updated_at: now,
    };
    let project = Project {
        id: ProjectId(generate_id()),
        channel_id: channel.id,
        name: "Story Arc".to_string(),
        description: "Persisted narrative".to_string(),
        created_at: now,
        updated_at: now,
    };

    let state = AppState { channels: vec![channel.clone()], projects: vec![project.clone()] };
    let ui_state = StudioState::from_app_state_with_selection(&state, Some(channel.id), Some(project.id));

    assert_eq!(ui_state.selected_channel.as_ref().map(|c| c.name.as_str()), Some("Brand One"));
    assert_eq!(ui_state.selected_project.as_ref().map(|p| p.name.as_str()), Some("Story Arc"));
}

#[test]
fn advance_workflow_updates_status_and_selection() {
    let mut ui_state = StudioState {
        selected_channel_id: None,
        selected_project_id: None,
        selected_channel: None,
        selected_project: None,
        workflow: WorkflowArea::from_project(None),
    };

    ui_state.advance_workflow();
    assert_eq!(ui_state.workflow.active_step, 2);
    assert_eq!(ui_state.workflow.steps[1].status, WorkflowStatus::Complete);
    assert_eq!(ui_state.workflow.steps[2].status, WorkflowStatus::Running);
}

#[test]
fn parse_command_handles_project_and_channel_selection() {
    assert_eq!(parse_command("project 0", 2, 3).unwrap(), CliCommand::SelectProject(0));
    assert_eq!(parse_command("channel 1", 2, 3).unwrap(), CliCommand::SelectChannel(1));
    assert_eq!(parse_command("advance", 1, 1).unwrap(), CliCommand::Advance);
    assert_eq!(parse_command("render", 1, 1).unwrap(), CliCommand::Render);
    assert_eq!(parse_command("new project Story Arc", 1, 1).unwrap(), CliCommand::NewProject("Story Arc".to_string()));
    assert_eq!(parse_command("new channel Brand One", 1, 1).unwrap(), CliCommand::NewChannel("Brand One".to_string()));
}

#[test]
fn parse_command_reads_words_in_any_case_and_reports_errors() {
    assert_eq!(parse_command("   ", 0, 0).unwrap(), CliCommand::List);
    assert_eq!(parse_command("  HeLp \n", 0, 0).unwrap(), CliCommand::Help);
    assert_eq!(parse_command("LIST", 0, 0).unwrap(), CliCommand::List);
    assert_eq!(parse_command("Exit", 0, 0).unwrap(), CliCommand::Quit);
    assert_eq!(parse_command("quit", 0, 0).unwrap(), CliCommand::Quit);
    assert_eq!(parse_command("project 3", 2, 3).unwrap_err(), "project index out of range: 3");
    assert_eq!(parse_command("channel 12", 2, 3).unwrap_err(), "channel index out of range: 12");
    assert_eq!(parse_command("project +1", 2, 3).unwrap(), CliCommand::SelectProject(1));
    assert_eq!(parse_command("project -1", 2, 3).unwrap(), CliCommand::NewProject("-1".to_string()));
    assert_eq!(parse_command("channel  Brand  Two ", 2, 3).unwrap(), CliCommand::NewChannel("Brand  Two".to_string()));
    assert_eq!(
        parse_command("project 99999999999999999999999", 2, 3).unwrap(),
        CliCommand::NewProject("99999999999999999999999".to_string())
    );
    assert_eq!(parse_command("Project 1", 2, 3).unwrap_err(), "unknown command: Project 1");
    assert_eq!(parse_command("dance", 0, 0).unwrap_err(), "unknown command: dance");
}

#[test]
fn workflow_of_a_project_names_it() {
    let c = channel("C");
    let p = project(&c, "Pilot");
    let w = WorkflowArea::from_project(Some(&p));
    assert_eq!(w.steps[0].status, WorkflowStatus::Complete);
    assert_eq!(w.steps[1].status, WorkflowStatus::Running);
    assert_eq!(w.steps[1].detail, "Working on Pilot");
    assert_eq!(w.steps[3].status, WorkflowStatus::Blocked);
    assert_eq!(status_label(w.steps[3].status), "BLOCKED");
}

#[test]
fn advance_stops_at_the_last_step() {
    let mut ui_state = StudioState::from_app_state(&AppState::default());
    ui_state.advance_workflow();
    ui_state.advance_workflow();
    assert_eq!(ui_state.workflow.active_step, 3);
    ui_state.advance_workflow();
    assert_eq!(ui_state.workflow.active_step, 3);
    assert_eq!(ui_state.workflow.steps[3].status, WorkflowStatus::Running);
    assert_eq!(ui_state.workflow.steps[2].status, WorkflowStatus::Complete);
}

#[test]
fn selection_falls_back_to_the_first_records() {
    let a = channel("A");
    let b = channel("B");
    let pa = project(&a, "PA");
    let state = AppState { channels: vec![a.clone(), b.clone()], projects: vec![pa.clone()] };
    let st = StudioState::from_app_state_with_selection(&state, Some(b.id), Some(ProjectId(0)));
    assert_eq!(st.selected_channel_id, Some(b.id));
    assert_eq!(st.selected_project_id, Some(pa.id));
    let st = StudioState::from_app_state_with_selection(&state, Some(ChannelId(0)), None);
    assert_eq!(st.selected_channel_id, Some(a.id));
}

#[test]
fn selecting_a_project_without_a_channel_adds_a_placeholder() {
    let mut st = StudioState::from_app_state(&AppState::default());
    let c = channel("C");
    let p = project(&c, "Solo");
    st.select_project(p.clone());
    assert_eq!(st.selected_project_id, Some(p.id));
    assert_eq!(st.selected_channel.as_ref().unwrap().name, "Unassigned");
    assert_eq!(st.selected_channel_id, Some(st.selected_channel.as_ref().unwrap().id));
    {
        let placeholder = st.selected_channel.as_ref().unwrap();
        assert_eq!(placeholder.brand.name, "Unassigned");
        assert_eq!(placeholder.brand.tagline, "No channel selected");
        assert_eq!(placeholder.brand.tone, "neutral");
        assert_eq!(placeholder.style.art_style, "default");
        assert_eq!(placeholder.style.color_palette, vec!["#111827".to_string()]);
        assert_eq!(placeholder.style.camera_style, "default");
        assert_eq!(placeholder.style.pacing, "medium");
        assert_eq!((placeholder.id.0 >> 76) & 0xf, 4);
    }
    assert_eq!(st.workflow.steps[1].detail, "Working on Solo");
    st.select_channel(c.clone());
    assert_eq!(st.selected_channel_id, Some(c.id));
    assert_eq!(st.selected_project_id, Some(p.id));
}

#[test]
fn planned_commands_select_render_and_create() {

    let a = channel("A");
    let pa = project(&a, "PA");
    let pb = project(&a, "PB");
    let state = AppState { channels: vec![a.clone()], projects: vec![pa.clone(), pb.clone()] };
    let mut st = StudioState::from_app_state(&state);

    assert!(matches!(st.plan_command(CliCommand::Help, &state), CommandAction::ShowHelp));
    assert!(matches!(st.plan_command(CliCommand::List, &state), CommandAction::ShowDashboard));
    assert!(matches!(st.plan_command(CliCommand::Quit, &state), CommandAction::Quit));

    assert!(matches!(st.plan_command(CliCommand::SelectProject(1), &state), CommandAction::Continue));
    assert_eq!(st.selected_project_id, Some(pb.id));
    assert!(matches!(st.plan_command(CliCommand::SelectProject(5), &state), CommandAction::Continue));
    assert_eq!(st.selected_project_id, Some(pb.id));

    match st.plan_command(CliCommand::Render, &state) {
        CommandAction::Render { project, channel } => {
            assert_eq!(project.id, pb.id);
            assert_eq!(channel.id, a.id);
        }
        other => panic!("unexpected action {other:?}"),
    }

    match st.plan_command(CliCommand::NewProject("Next".to_string()), &state) {
        CommandAction::SaveProject(p) => {
            assert_eq!(p.name, "Next");
            assert_eq!(p.description, "Created from CLI");
            assert_eq!(p.channel_id, a.id);
        }
        other => panic!("unexpected action {other:?}"),
    }
    match st.plan_command(CliCommand::NewChannel("Fresh".to_string()), &state) {
        CommandAction::SaveChannel(c) => {
            assert_eq!(c.name, "Fresh");
            assert_eq!(c.brand.tagline, "Created from CLI");
        }
        other => panic!("unexpected action {other:?}"),
    }

    let empty = AppState::default();
    let mut blank = StudioState::from_app_state(&empty);
    assert!(matches!(blank.plan_command(CliCommand::Render, &empty), CommandAction::NothingToRender));
    match blank.plan_command(CliCommand::NewProject("Orphan".to_string()), &empty) {
        CommandAction::SaveProject(p) => {
            assert_eq!(p.name, "Orphan");
            assert_eq!((p.channel_id.0 >> 76) & 0xf, 4);
            assert_eq!((p.channel_id.0 >> 62) & 0x3, 2);
        }
        other => panic!("unexpected action {other:?}"),
    }
    assert!(starter_records(&state).is_none());
    let (c, p) = starter_records(&empty).unwrap();
    assert_eq!(c.name, "Animatrix Studio");
    assert_eq!(p.name, "Pilot Episode");
    assert_eq!(p.channel_id, c.id);
}

#[test]
fn render_completion_finishes_the_workflow() {
    let mut st = StudioState::from_app_state(&AppState::default());
    st.mark_render_complete();
    assert_eq!(st.workflow.active_step, 3);
    assert_eq!(st.workflow.steps[3].status, WorkflowStatus::Complete);
    assert_eq!(st.workflow.steps[1].status, WorkflowStatus::Ready);
}

#[test]
fn commands_read_the_same_once_trimmed_and_whatever_the_counts() {
    for line in ["  help ", "\tnew project  Story  ", "project Pilot ", " channel 1", "bogus words", "project 7"] {
        assert_eq!(parse_command(line, 2, 3), parse_command(line.trim(), 2, 3));
    }
    assert_eq!(parse_command("new channel Arc", 0, 0), parse_command("new channel Arc", 9, 9));
    assert_eq!(parse_command("project Pilot", 0, 0), parse_command("project Pilot", 4, 4));
    match parse_command("  project   Story  ", 1, 1).unwrap() {
        CliCommand::NewProject(name) => assert_eq!(name, "Story"),
        other => panic!("unexpected command {other:?}"),
    }
    assert!(parse_command("project 7", 2, 3).unwrap_err().starts_with("project index out of range: "));
    assert!(parse_command("channel 2", 2, 3).unwrap_err().starts_with("channel index out of range: "));
    assert!(parse_command("bogus", 2, 3).unwrap_err().starts_with("unknown command: "));
}
