use animatrix::base::{ChannelId, ProjectId, Timestamp};
use animatrix::storage::{decode_channel_row, decode_project_row, join_path, AppConfig, AppState};

#[test]
fn database_url_uses_absolute_sqlite_uri() {
    let config = AppConfig::default().unwrap();
    let db_url = config.database_url();
    assert!(db_url.starts_with("sqlite:///"), "unexpected sqlite url: {db_url}");
}

#[test]
fn config_paths_live_under_the_data_directory() {
    let config = AppConfig::default().unwrap();
    assert!(config.data_dir.ends_with("/.animatrix"));
    assert_eq!(config.database_path, format!("{}/data/animatrix.db", config.data_dir));
    let config = AppConfig { data_dir: "/home/a/.animatrix".to_string(), database_path: "/home/a/.animatrix/data/animatrix.db".to_string() };
    assert_eq!(config.database_url(), "sqlite:///home/a/.animatrix/data/animatrix.db");
}

#[test]
fn paths_join_with_one_separator() {
    assert_eq!(join_path("/home/a", ".animatrix"), "/home/a/.animatrix");
    assert_eq!(join_path("/", ".animatrix"), "/.animatrix");
    assert_eq!(join_path("", "data"), "data");
}

#[test]
fn app_state_is_empty_without_records() {
    let state = AppState::new(vec![], vec![]);
    assert!(state.is_empty());
    let channel = animatrix::project::ProjectManager::new_channel("A", "B");
    let state = AppState::new(vec![channel], vec![]);
    assert!(!state.is_empty());
}

#[test]
fn config_for_home_puts_the_database_under_the_home_directory() {
    let config = AppConfig::config_for_home(Some("/home/ann".to_string())).unwrap();
    assert_eq!(config.data_dir, "/home/ann/.animatrix");
    assert_eq!(config.database_path, "/home/ann/.animatrix/data/animatrix.db");
    assert_eq!(config.database_url(), "sqlite:///home/ann/.animatrix/data/animatrix.db");
    let err = AppConfig::config_for_home(None).unwrap_err();
    assert_eq!(err.code, "config_home");
    assert_eq!(err.message, "unable to resolve home directory");
}

fn brand() -> animatrix::domain::BrandProfile {
    animatrix::domain::BrandProfile { name: "B".to_string(), tagline: "T".to_string(), tone: "calm".to_string() }
}

fn style() -> animatrix::domain::StyleProfile {
    animatrix::domain::StyleProfile {
        art_style: "flat".to_string(),
        color_palette: vec!["#ffffff".to_string()],
        camera_style: "wide".to_string(),
        pacing: "slow".to_string(),
    }
}

const CHANNEL_TEXT: &str = "67e55044-10b1-426f-9247-bb680e5fe0c8";
const PROJECT_TEXT: &str = "936da01f-9abd-4d9d-80c7-02af85c822a8";

#[test]
fn stored_channel_rows_read_back() {
    let c = decode_channel_row(CHANNEL_TEXT, "News".to_string(), brand(), style(), "1970-01-01T00:00:02Z", "1970-01-01T00:00:03.5Z").unwrap();
    assert_eq!(c.id, ChannelId(0x67e5504410b1426f9247bb680e5fe0c8));
    assert_eq!(c.name, "News");
    assert_eq!(c.brand.tone, "calm");
    assert_eq!(c.style.color_palette, vec!["#ffffff".to_string()]);
    assert_eq!(c.created_at, Timestamp { secs: 2, nanos: 0 });
    assert_eq!(c.updated_at, Timestamp { secs: 3, nanos: 500_000_000 });
    let err = decode_channel_row("x", "News".to_string(), brand(), style(), "bad", "bad").unwrap_err();
    assert_eq!(err.code, "channel_id");
    let err = decode_channel_row(CHANNEL_TEXT, "News".to_string(), brand(), style(), "bad", "bad").unwrap_err();
    assert_eq!(err.code, "created_at_decode");
    let err = decode_channel_row(CHANNEL_TEXT, "News".to_string(), brand(), style(), "1970-01-01T00:00:02Z", "bad").unwrap_err();
    assert_eq!(err.code, "updated_at_decode");
}

#[test]
fn stored_project_rows_read_back() {
    let p = decode_project_row(PROJECT_TEXT, CHANNEL_TEXT, "Pilot".to_string(), "First".to_string(), "1970-01-01T00:00:00Z", "1970-01-01T01:00:00+01:00").unwrap();
    assert_eq!(p.id, ProjectId(0x936da01f9abd4d9d80c702af85c822a8));
    assert_eq!(p.channel_id, ChannelId(0x67e5504410b1426f9247bb680e5fe0c8));
    assert_eq!(p.name, "Pilot");
    assert_eq!(p.description, "First");
    assert_eq!(p.created_at, Timestamp { secs: 0, nanos: 0 });
    assert_eq!(p.updated_at, Timestamp { secs: 0, nanos: 0 });
    let err = decode_project_row("x", "y", "P".to_string(), "D".to_string(), "bad", "bad").unwrap_err();
    assert_eq!(err.code, "project_id");
    assert!(!err.message.is_empty());
    let err = decode_project_row(PROJECT_TEXT, "y", "P".to_string(), "D".to_string(), "bad", "bad").unwrap_err();
    assert_eq!(err.code, "channel_id");
    let err = decode_project_row(PROJECT_TEXT, CHANNEL_TEXT, "P".to_string(), "D".to_string(), "bad", "bad").unwrap_err();
    assert_eq!(err.code, "created_at_decode");
    let err = decode_project_row(PROJECT_TEXT, CHANNEL_TEXT, "P".to_string(), "D".to_string(), "1970-01-01T00:00:00Z", "bad").unwrap_err();
    assert_eq!(err.code, "updated_at_decode");
}
