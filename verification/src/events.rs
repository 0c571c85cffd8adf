//! Workflow events: their types, how a type is written and read back, and event records.

use vstd::prelude::*;
use crate::base::{generate_id, instant_of, is_random_id, AppError, JobId, ProjectId, Timestamp};
use crate::outside::{
    hyphenated_text, json_parse, now_instant, parse_json, parse_rfc3339, parse_uuid,
    rfc3339_parse, uuid_parse,
};
use crate::text::str_equals;

verus! {

#[derive(Debug, Clone, Copy, PartialEq, Eq, Structural)]
pub enum EventType {
    ProjectCreated,
    SceneGenerated,
    AssetCreated,
    RenderStarted,
    RenderCompleted,
    RenderFailed,
    ProviderHealthChanged,
    VideoPublished,
}

/// The name under which an event type is stored.
pub open spec fn event_name_spec(t: EventType) -> Seq<char> {
    match t {
        EventType::ProjectCreated => "ProjectCreated"@,
        EventType::SceneGenerated => "SceneGenerated"@,
        EventType::AssetCreated => "AssetCreated"@,
        EventType::RenderStarted => "RenderStarted"@,
        EventType::RenderCompleted => "RenderCompleted"@,
        EventType::RenderFailed => "RenderFailed"@,
        EventType::ProviderHealthChanged => "ProviderHealthChanged"@,
        EventType::VideoPublished => "VideoPublished"@,
    }
}

/// The event type stored under `name`, if any.
pub open spec fn event_type_of(name: Seq<char>) -> Option<EventType> {
    if name == "ProjectCreated"@ {
        Some(EventType::ProjectCreated)
    } else if name == "SceneGenerated"@ {
        Some(EventType::SceneGenerated)
    } else if name == "AssetCreated"@ {
        Some(EventType::AssetCreated)
    } else if name == "RenderStarted"@ {
        Some(EventType::RenderStarted)
    } else if name == "RenderCompleted"@ {
        Some(EventType::RenderCompleted)
    } else if name == "RenderFailed"@ {
        Some(EventType::RenderFailed)
    } else if name == "ProviderHealthChanged"@ {
        Some(EventType::ProviderHealthChanged)
    } else if name == "VideoPublished"@ {
        Some(EventType::VideoPublished)
    } else {
        None
    }
}

impl EventType {
    /// The name under which the event type is stored.
    pub fn name(&self) -> (s: &'static str)
        ensures
            s@ == event_name_spec(*self),
    {
        match self {
            EventType::ProjectCreated => "ProjectCreated",
            EventType::SceneGenerated => "SceneGenerated",
            EventType::AssetCreated => "AssetCreated",
            EventType::RenderStarted => "RenderStarted",
            EventType::RenderCompleted => "RenderCompleted",
            EventType::RenderFailed => "RenderFailed",
            EventType::ProviderHealthChanged => "ProviderHealthChanged",
            EventType::VideoPublished => "VideoPublished",
        }
    }

    /// The event type stored under `name`, if any.
    pub fn from_name(name: &str) -> (r: Option<EventType>)
        ensures
            r == event_type_of(name@),
    {
        if str_equals(name, "ProjectCreated") {
            Some(EventType::ProjectCreated)
        } else if str_equals(name, "SceneGenerated") {
            Some(EventType::SceneGenerated)
        } else if str_equals(name, "AssetCreated") {
            Some(EventType::AssetCreated)
        } else if str_equals(name, "RenderStarted") {
            Some(EventType::RenderStarted)
        } else if str_equals(name, "RenderCompleted") {
            Some(EventType::RenderCompleted)
        } else if str_equals(name, "RenderFailed") {
            Some(EventType::RenderFailed)
        } else if str_equals(name, "ProviderHealthChanged") {
            Some(EventType::ProviderHealthChanged)
        } else if str_equals(name, "VideoPublished") {
            Some(EventType::VideoPublished)
        } else {
            None
        }
    }

    /// Reads a stored event type strictly: the error `unknown_event` names a type that is
    /// not known.
    pub fn decode(name: &str) -> (r: Result<EventType, AppError>)
        ensures
            match event_type_of(name@) {
                Some(t) => r == Ok::<EventType, AppError>(t),
                None => r matches Err(e) && e.code@ == "unknown_event"@
                    && e.message@ == "unknown event type: "@ + name@ && e.source is None,
            },
    {
        match Self::from_name(name) {
            Some(t) => Ok(t),
            None => {
                let mut message = "unknown event type: ".to_string();
                message.append(name);
                Err(AppError::new("unknown_event", message.as_str()))
            },
        }
    }

    /// Reads a stored event type leniently: a name that is not known reads as `ProjectCreated`.
    pub fn decode_or_default(name: &str) -> (t: EventType)
        ensures
            t == match event_type_of(name@) {
                Some(t) => t,
                None => EventType::ProjectCreated,
            },
    {
        match Self::from_name(name) {
            Some(t) => t,
            None => EventType::ProjectCreated,
        }
    }
}

/// Every event type reads back from the name it is stored under.
pub proof fn law_event_name_round_trip(t: EventType)
    ensures
        event_type_of(event_name_spec(t)) == Some(t),
{
    reveal_strlit("ProjectCreated");
    assert("ProjectCreated"@.len() == 14 && "ProjectCreated"@[0] == 'P');
    reveal_strlit("SceneGenerated");
    assert("SceneGenerated"@.len() == 14 && "SceneGenerated"@[0] == 'S');
    reveal_strlit("AssetCreated");
    assert("AssetCreated"@.len() == 12 && "AssetCreated"@[0] == 'A');
    reveal_strlit("RenderStarted");
    assert("RenderStarted"@.len() == 13 && "RenderStarted"@[0] == 'R');
    reveal_strlit("RenderCompleted");
    assert("RenderCompleted"@.len() == 15 && "RenderCompleted"@[0] == 'R');
    reveal_strlit("RenderFailed");
    assert("RenderFailed"@.len() == 12 && "RenderFailed"@[0] == 'R');
    reveal_strlit("ProviderHealthChanged");
    assert("ProviderHealthChanged"@.len() == 21 && "ProviderHealthChanged"@[0] == 'P');
    reveal_strlit("VideoPublished");
    assert("VideoPublished"@.len() == 14 && "VideoPublished"@[0] == 'V');
}

/// One event of a project's history. The payload is a JSON document; `id` holds the bits of a
/// UUID.
#[derive(Debug)]
pub struct EventRecord {
    pub id: u128,
    pub project_id: ProjectId,
    pub job_id: Option<JobId>,
    pub event_type: EventType,
    pub payload: serde_json::Value,
    pub created_at: Timestamp,
}

impl EventRecord {
    /// A new event of `event_type` for `project_id` (and `job_id`), with a fresh id, made now.
    pub fn new(
        project_id: ProjectId,
        job_id: Option<JobId>,
        event_type: EventType,
        payload: serde_json::Value,
    ) -> (r: EventRecord)
        ensures
            is_random_id(r.id),
            r.project_id == project_id,
            r.job_id == job_id,
            r.event_type == event_type,
            r.payload == payload,
            r.created_at.secs >= 0,
    {
        EventRecord {
            id: generate_id(),
            project_id,
            job_id,
            event_type,
            payload,
            created_at: now_instant(),
        }
    }
}

/// Whether `id` is what a stored identifier `text` reads as: the identifier that uuid's parser
/// reads from it, or, where it reads none, a fresh random one.
pub open spec fn read_id(text: Seq<char>, id: u128) -> bool {
    match uuid_parse(text) {
        Ok(bits) => id == bits,
        Err(_) => is_random_id(id),
    }
}

/// The identifier stored as `text`; a text that does not read as a UUID stands for a fresh one.
/// The hyphenated lower-case form reads back as the identifier it was written from.
pub fn read_id_or_fresh(text: &str) -> (id: u128)
    ensures
        read_id(text@, id),
        forall|bits: u128| text@ == hyphenated_text(bits) ==> id == bits,
{
    match parse_uuid(text) {
        Ok(bits) => bits,
        Err(_) => generate_id(),
    }
}

/// The text of an optional string.
pub open spec fn optional_text(o: Option<&str>) -> Option<Seq<char>> {
    match o {
        Some(s) => Some(s@),
        None => None,
    }
}

/// Whether `r` is what a stored event row reads as: its fields in turn, the event type read
/// strictly (the error `unknown_event`) or leniently, the payload as a JSON document (the error
/// `payload_decode`), the identifiers as by `read_id`, and the creation time as RFC 3339 (the
/// error `created_at_decode`). Errors carry the outside parser's message and come in that order.
pub open spec fn event_row_read(
    id: Seq<char>,
    project_id: Seq<char>,
    job_id: Option<Seq<char>>,
    event_type: Seq<char>,
    payload: Seq<char>,
    created_at: Seq<char>,
    strict: bool,
    r: Result<EventRecord, AppError>,
) -> bool {
    if strict && event_type_of(event_type) is None {
        r matches Err(e) && e.code@ == "unknown_event"@
            && e.message@ == "unknown event type: "@ + event_type && e.source is None
    } else if json_parse(payload) is Err {
        r matches Err(e) && e.code@ == "payload_decode"@
            && e.message@ == json_parse(payload)->Err_0 && e.source is None
    } else if rfc3339_parse(created_at) is Err {
        r matches Err(e) && e.code@ == "created_at_decode"@
            && e.message@ == rfc3339_parse(created_at)->Err_0 && e.source is None
    } else {
        r matches Ok(rec) && read_id(id, rec.id) && read_id(project_id, rec.project_id.0)
            && match job_id {
                Some(j) => rec.job_id matches Some(k) && read_id(j, k.0),
                None => rec.job_id is None,
            }
            && rec.event_type == match event_type_of(event_type) {
                Some(t) => t,
                None => EventType::ProjectCreated,
            }
            && rec.payload == json_parse(payload)->Ok_0
            && rec.created_at == instant_of(rfc3339_parse(created_at)->Ok_0)
    }
}

/// Reads one stored event row back into a record. With `strict` an unknown event type is the
/// error `unknown_event`; without it, it reads as `ProjectCreated`.
pub fn decode_event_row(
    id: &str,
    project_id: &str,
    job_id: Option<&str>,
    event_type: &str,
    payload: &str,
    created_at: &str,
    strict: bool,
) -> (r: Result<EventRecord, AppError>)
    ensures
        event_row_read(id@, project_id@, optional_text(job_id), event_type@, payload@,
            created_at@, strict, r),
        r matches Ok(rec) ==> forall|bits: u128| id@ == hyphenated_text(bits) ==> rec.id == bits,
        r matches Ok(rec) ==> forall|bits: u128|
            project_id@ == hyphenated_text(bits) ==> rec.project_id.0 == bits,
        r matches Ok(rec) ==> forall|bits: u128|
            optional_text(job_id) == Some(hyphenated_text(bits)) ==> rec.job_id == Some(JobId(bits)),
{
    let kind = if strict {
        match EventType::decode(event_type) {
            Ok(t) => t,
            Err(e) => {
                return Err(e);
            },
        }
    } else {
        EventType::decode_or_default(event_type)
    };
    let document = match parse_json(payload) {
        Ok(d) => d,
        Err(m) => {
            return Err(AppError::new("payload_decode", m.as_str()));
        },
    };
    let job = match job_id {
        Some(j) => Some(JobId(read_id_or_fresh(j))),
        None => None,
    };
    let record_id = read_id_or_fresh(id);
    let record_project = ProjectId(read_id_or_fresh(project_id));
    let created = match parse_rfc3339(created_at) {
        Ok(t) => t,
        Err(m) => {
            return Err(AppError::new("created_at_decode", m.as_str()));
        },
    };
    Ok(
        EventRecord {
            id: record_id,
            project_id: record_project,
            job_id: job,
            event_type: kind,
            payload: document,
            created_at: created,
        },
    )
}

} // verus!
