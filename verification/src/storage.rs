//! The studio's persisted state and where it is kept on disk.

use vstd::prelude::*;
use crate::base::{instant_of, AppError, ChannelId, ProjectId, Timestamp};
use crate::domain::{BrandProfile, Channel, Project, StyleProfile};
use crate::outside::{home_directory, hyphenated_text, parse_rfc3339, parse_uuid, rfc3339_parse, uuid_parse};

verus! {

/// The channels and projects of the studio.
#[derive(Debug, Clone, Default)]
pub struct AppState {
    pub projects: Vec<Project>,
    pub channels: Vec<Channel>,
}

impl AppState {
    /// A state of `channels` and `projects`.
    pub fn new(channels: Vec<Channel>, projects: Vec<Project>) -> (s: Self)
        ensures
            s.channels == channels,
            s.projects == projects,
    {
        AppState { channels, projects }
    }

    /// Whether the state holds neither a channel nor a project.
    pub fn is_empty(&self) -> (b: bool)
        ensures
            b == (self.channels@.len() == 0 && self.projects@.len() == 0),
    {
        self.channels.len() == 0 && self.projects.len() == 0
    }
}

/// Whether `e` is the error `code` with the outside parser's message `message` and no source.
pub open spec fn decode_error(e: AppError, code: Seq<char>, message: Seq<char>) -> bool {
    e.code@ == code && e.message@ == message && e.source is None
}

/// The identifier stored as `text`, or the error `code` with uuid's message.
fn read_required_id(text: &str, code: &str) -> (r: Result<u128, AppError>)
    ensures
        match uuid_parse(text@) {
            Ok(bits) => r == Ok::<u128, AppError>(bits),
            Err(m) => r matches Err(e) && decode_error(e, code@, m),
        },
        forall|bits: u128| text@ == hyphenated_text(bits) ==> r == Ok::<u128, AppError>(bits),
{
    match parse_uuid(text) {
        Ok(bits) => Ok(bits),
        Err(m) => Err(AppError::new(code, m.as_str())),
    }
}

/// The instant stored as RFC 3339 `text`, or the error `code` with chrono's
/// message.
fn read_time(text: &str, code: &str) -> (r: Result<Timestamp, AppError>)
    ensures
        match rfc3339_parse(text@) {
            Ok(t) => r == Ok::<Timestamp, AppError>(instant_of(t)),
            Err(m) => r matches Err(e) && decode_error(e, code@, m),
        },
{
    match parse_rfc3339(text) {
        Ok(t) => Ok(t),
        Err(m) => Err(AppError::new(code, m.as_str())),
    }
}

/// Whether `r` is what a stored channel row reads as: the id (the error `channel_id`), then the
/// creation and update times as RFC 3339 (`created_at_decode`, `updated_at_decode`), with the
/// outside parser's message; the name, brand and style are kept as read.
pub open spec fn channel_row_read(
    id: Seq<char>,
    name: String,
    brand: BrandProfile,
    style: StyleProfile,
    created_at: Seq<char>,
    updated_at: Seq<char>,
    r: Result<Channel, AppError>,
) -> bool {
    if uuid_parse(id) is Err {
        r matches Err(e) && decode_error(e, "channel_id"@, uuid_parse(id)->Err_0)
    } else if rfc3339_parse(created_at) is Err {
        r matches Err(e) && decode_error(e, "created_at_decode"@, rfc3339_parse(created_at)->Err_0)
    } else if rfc3339_parse(updated_at) is Err {
        r matches Err(e) && decode_error(e, "updated_at_decode"@, rfc3339_parse(updated_at)->Err_0)
    } else {
        r matches Ok(c) && c.id == ChannelId(uuid_parse(id)->Ok_0) && c.name == name
            && c.brand == brand && c.style == style
            && c.created_at == instant_of(rfc3339_parse(created_at)->Ok_0)
            && c.updated_at == instant_of(rfc3339_parse(updated_at)->Ok_0)
    }
}

/// Reads one stored channel row back into a channel; its brand and style come already read.
pub fn decode_channel_row(
    id: &str,
    name: String,
    brand: BrandProfile,
    style: StyleProfile,
    created_at: &str,
    updated_at: &str,
) -> (r: Result<Channel, AppError>)
    ensures
        channel_row_read(id@, name, brand, style, created_at@, updated_at@, r),
{
    let bits = match read_required_id(id, "channel_id") {
        Ok(b) => b,
        Err(e) => {
            return Err(e);
        },
    };
    let created = match read_time(created_at, "created_at_decode") {
        Ok(t) => t,
        Err(e) => {
            return Err(e);
        },
    };
    let updated = match read_time(updated_at, "updated_at_decode") {
        Ok(t) => t,
        Err(e) => {
            return Err(e);
        },
    };
    Ok(Channel { id: ChannelId(bits), name, brand, style, created_at: created, updated_at: updated })
}

/// Whether `r` is what a stored project row reads as: the id (the error `project_id`), the
/// channel's id (`channel_id`), then the creation and update times as RFC 3339
/// (`created_at_decode`, `updated_at_decode`), with the outside parser's message; the name and
/// description are kept as read.
pub open spec fn project_row_read(
    id: Seq<char>,
    channel_id: Seq<char>,
    name: String,
    description: String,
    created_at: Seq<char>,
    updated_at: Seq<char>,
    r: Result<Project, AppError>,
) -> bool {
    if uuid_parse(id) is Err {
        r matches Err(e) && decode_error(e, "project_id"@, uuid_parse(id)->Err_0)
    } else if uuid_parse(channel_id) is Err {
        r matches Err(e) && decode_error(e, "channel_id"@, uuid_parse(channel_id)->Err_0)
    } else if rfc3339_parse(created_at) is Err {
        r matches Err(e) && decode_error(e, "created_at_decode"@, rfc3339_parse(created_at)->Err_0)
    } else if rfc3339_parse(updated_at) is Err {
        r matches Err(e) && decode_error(e, "updated_at_decode"@, rfc3339_parse(updated_at)->Err_0)
    } else {
        r matches Ok(p) && p.id == ProjectId(uuid_parse(id)->Ok_0)
            && p.channel_id == ChannelId(uuid_parse(channel_id)->Ok_0)
            && p.name == name && p.description == description
            && p.created_at == instant_of(rfc3339_parse(created_at)->Ok_0)
            && p.updated_at == instant_of(rfc3339_parse(updated_at)->Ok_0)
    }
}

/// Reads one stored project row back into a project.
pub fn decode_project_row(
    id: &str,
    channel_id: &str,
    name: String,
    description: String,
    created_at: &str,
    updated_at: &str,
) -> (r: Result<Project, AppError>)
    ensures
        project_row_read(id@, channel_id@, name, description, created_at@, updated_at@, r),
{
    let bits = match read_required_id(id, "project_id") {
        Ok(b) => b,
        Err(e) => {
            return Err(e);
        },
    };
    let channel = match read_required_id(channel_id, "channel_id") {
        Ok(b) => b,
        Err(e) => {
            return Err(e);
        },
    };
    let created = match read_time(created_at, "created_at_decode") {
        Ok(t) => t,
        Err(e) => {
            return Err(e);
        },
    };
    let updated = match read_time(updated_at, "updated_at_decode") {
        Ok(t) => t,
        Err(e) => {
            return Err(e);
        },
    };
    Ok(
        Project {
            id: ProjectId(bits),
            channel_id: ChannelId(channel),
            name,
            description,
            created_at: created,
            updated_at: updated,
        },
    )
}

/// `part` appended to the path `base` with one separator between them.
pub open spec fn join_spec(base: Seq<char>, part: Seq<char>) -> Seq<char> {
    if base.len() == 0 {
        part
    } else if base.last() == '/' {
        base + part
    } else {
        base + "/"@ + part
    }
}

/// `part` appended to the path `base` with one separator between them.
pub fn join_path(base: &str, part: &str) -> (p: String)
    ensures
        p@ == join_spec(base@, part@),
{
    let n = base.unicode_len();
    let mut p = base.to_string();
    if n > 0 && base.get_char(n - 1) != '/' {
        p.append("/");
    }
    p.append(part);
    p
}

/// Where the studio keeps its data: a data directory and the SQLite database in it.
#[derive(Debug, Clone)]
pub struct AppConfig {
    pub data_dir: String,
    pub database_path: String,
}

/// The data directory under home directory `home`: `<home>/.animatrix`.
pub open spec fn data_dir_spec(home: Seq<char>) -> Seq<char> {
    join_spec(home, ".animatrix"@)
}

/// The database path under home directory `home`: `<home>/.animatrix/data/animatrix.db`.
pub open spec fn database_path_spec(home: Seq<char>) -> Seq<char> {
    join_spec(join_spec(data_dir_spec(home), "data"@), "animatrix.db"@)
}

impl AppConfig {
    /// The configuration under the home directory `home`, as the lookup of the home directory
    /// gave it: `<home>/.animatrix` and the database `data/animatrix.db` in it; the error
    /// `config_home` when there is no home directory.
    pub fn config_for_home(home: Option<String>) -> (r: Result<AppConfig, AppError>)
        ensures
            home matches Some(h) ==> r matches Ok(c) && c.data_dir@ == data_dir_spec(h@)
                && c.database_path@ == database_path_spec(h@),
            home is None ==> (r matches Err(e) && e.code@ == "config_home"@
                && e.message@ == "unable to resolve home directory"@ && e.source is None),
    {
        match home {
            Some(h) => {
                let data_dir = join_path(h.as_str(), ".animatrix");
                let data = join_path(data_dir.as_str(), "data");
                let database_path = join_path(data.as_str(), "animatrix.db");
                Ok(AppConfig { data_dir, database_path })
            },
            None => Err(AppError::new("config_home", "unable to resolve home directory")),
        }
    }

    /// The configuration under the user's home directory; the error `config_home` when the
    /// home directory cannot be resolved. The lookup is the environment's; what is built from
    /// its answer is `config_for_home`'s.
    pub fn default() -> (r: Result<AppConfig, AppError>)
        ensures
            match r {
                Ok(c) => exists|home: Seq<char>| home.len() > 0
                    && c.data_dir@ == data_dir_spec(home)
                    && c.database_path@ == database_path_spec(home),
                Err(e) => e.code@ == "config_home"@ && e.message@ == "unable to resolve home directory"@,
            },
    {
        let home = home_directory();
        let r = Self::config_for_home(home);
        proof {
            if home is Some {
                let h = home->Some_0@;
                assert(r matches Ok(c) && c.data_dir@ == data_dir_spec(h)
                    && c.database_path@ == database_path_spec(h));
            }
        }
        r
    }

    /// The SQLite URL of the database: `sqlite://` followed by its path.
    pub fn database_url(&self) -> (url: String)
        ensures
            url@ == "sqlite://"@ + self.database_path@,
    {
        let mut url = "sqlite://".to_string();
        url.append(self.database_path.as_str());
        url
    }
}

} // verus!
