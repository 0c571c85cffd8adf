use animatrix::base::{JobId, ProjectId, Timestamp};
use animatrix::events::{EventRecord, EventType};

const ALL: [EventType; 8] = [
    EventType::ProjectCreated,
    EventType::SceneGenerated,
    EventType::AssetCreated,
    EventType::RenderStarted,
    EventType::RenderCompleted,
    EventType::RenderFailed,
    EventType::ProviderHealthChanged,
    EventType::VideoPublished,
];

#[test]
fn event_types_read_back_from_their_names() {
    for t in ALL {
        assert_eq!(EventType::from_name(t.name()), Some(t));
        assert_eq!(EventType::decode(t.name()).unwrap(), t);
        assert_eq!(t.name(), format!("{:?}", t));
    }
}

#[test]
fn unknown_event_names_are_refused_or_defaulted() {
    let err = EventType::decode("Exploded").unwrap_err();
    assert_eq!(err.code, "unknown_event");
    assert_eq!(err.message, "unknown event type: Exploded");
    assert_eq!(EventType::decode_or_default("Exploded"), EventType::ProjectCreated);
    assert_eq!(EventType::decode_or_default("RenderFailed"), EventType::RenderFailed);
}

#[test]
fn append_with_job_tracks_job_metadata() {
    let project_id = ProjectId(animatrix::base::generate_id());
    let job_id = JobId(animatrix::base::generate_id());
    let mut payload = serde_json::Map::new();
    payload.insert("scene".to_string(), serde_json::Value::from(3));
    let event = EventRecord::new(project_id, Some(job_id), EventType::RenderStarted, serde_json::Value::Object(payload));

    assert_eq!(event.project_id, project_id);
    assert_eq!(event.job_id, Some(job_id));
    assert_eq!(event.event_type, EventType::RenderStarted);
    assert_eq!(event.payload["scene"], 3);
}

const STORED_ID: &str = "67e55044-10b1-426f-9247-bb680e5fe0c8";
const STORED_BITS: u128 = 0x67e5504410b1426f9247bb680e5fe0c8;

fn is_version_four(bits: u128) -> bool {
    (bits >> 76) & 0xf == 4 && (bits >> 62) & 0x3 == 2
}

#[test]
fn stored_event_rows_read_back() {
    let rec = animatrix::events::decode_event_row(
        STORED_ID,
        "936da01f-9abd-4d9d-80c7-02af85c822a8",
        Some(STORED_ID),
        "RenderStarted",
        "{\"scene\":3}",
        "1970-01-01T00:00:01Z",
        true,
    )
    .unwrap();
    assert_eq!(rec.id, STORED_BITS);
    assert_eq!(rec.project_id, ProjectId(0x936da01f9abd4d9d80c702af85c822a8));
    assert_eq!(rec.job_id, Some(JobId(STORED_BITS)));
    assert_eq!(rec.event_type, EventType::RenderStarted);
    assert_eq!(rec.payload.get("scene").and_then(|v| v.as_i64()), Some(3));
    assert_eq!(rec.created_at, Timestamp { secs: 1, nanos: 0 });
}

#[test]
fn unreadable_stored_ids_stand_for_fresh_ones() {
    let rec = animatrix::events::decode_event_row(
        "not-an-id",
        "",
        Some(""),
        "Exploded",
        "null",
        "2024-05-01T12:00:00+02:00",
        false,
    )
    .unwrap();
    assert!(is_version_four(rec.id));
    assert!(is_version_four(rec.project_id.0));
    assert!(is_version_four(rec.job_id.unwrap().0));
    assert_eq!(rec.event_type, EventType::ProjectCreated);
    assert!(rec.payload.is_null());
    assert_eq!(rec.created_at, Timestamp { secs: 1_714_557_600, nanos: 0 });
    let rec = animatrix::events::decode_event_row(STORED_ID, STORED_ID, None, "AssetCreated", "[]", "1970-01-01T00:00:00Z", false).unwrap();
    assert_eq!(rec.job_id, None);
    let rec = animatrix::events::decode_event_row(STORED_ID, STORED_ID, None, "AssetCreated", "[]", "1970-01-01T00:00:01.123456789Z", true).unwrap();
    assert_eq!(rec.created_at, Timestamp { secs: 1, nanos: 123_456_789 });
}

#[test]
fn stored_event_rows_report_decode_errors_in_order() {
    let err = animatrix::events::decode_event_row(STORED_ID, STORED_ID, None, "Exploded", "{", "bad", true).unwrap_err();
    assert_eq!(err.code, "unknown_event");
    assert_eq!(err.message, "unknown event type: Exploded");
    let err = animatrix::events::decode_event_row(STORED_ID, STORED_ID, None, "Exploded", "{", "bad", false).unwrap_err();
    assert_eq!(err.code, "payload_decode");
    assert!(!err.message.is_empty());
    let err = animatrix::events::decode_event_row(STORED_ID, STORED_ID, None, "RenderFailed", "{}", "yesterday", true).unwrap_err();
    assert_eq!(err.code, "created_at_decode");
    assert!(!err.message.is_empty());
}
