//! Asset metadata: what was produced for a project, where it lies and what it is.

use vstd::prelude::*;
use crate::base::{generate_id, is_random_id, AppError, ChannelId, ProjectId, ProviderKind, Timestamp};
use crate::outside::now_instant;
use crate::paths::{extension, extension_spec, file_name, file_name_spec};
use crate::text::{lemma_lower_idempotent, lower_spec, lowercase_equals};

verus! {

/// Identifies an asset: the 128 bits of a UUID.
#[derive(Debug, Clone, Copy, PartialEq, Eq, Structural)]
pub struct AssetId(pub u128);

#[derive(Debug, Clone, Copy, PartialEq, Eq, Structural)]
pub enum AssetType {
    Image,
    Video,
    Audio,
    Voice,
    Music,
    Sfx,
    Thumbnail,
    Scene,
    Project,
    Other,
}

#[derive(Debug, Clone, Copy, PartialEq, Eq, Structural)]
pub enum AssetSource {
    Local,
    Generated,
    Imported,
    Remote,
}

/// What is recorded of an asset's file: its name and path, whether it existed when the
/// asset was registered, and then its MIME type and size.
#[derive(Debug, Clone)]
pub struct AssetMetadata {
    pub file_name: String,
    pub path: String,
    pub exists: bool,
    pub mime_type: Option<String>,
    pub size_bytes: Option<u64>,
}

/// A registered asset.
#[derive(Debug, Clone)]
pub struct Asset {
    pub id: AssetId,
    pub project_id: ProjectId,
    pub channel_id: ChannelId,
    pub asset_type: AssetType,
    pub source: AssetSource,
    pub provider: Option<ProviderKind>,
    pub model: Option<String>,
    pub path: String,
    pub hash: String,
    pub mime_type: String,
    pub size_bytes: u64,
    pub metadata: AssetMetadata,
    pub created_at: Timestamp,
    pub parent_asset: Option<AssetId>,
}

/// The MIME type for a file extension (compared in lower case).
pub open spec fn mime_for_extension(ext: Seq<char>) -> Seq<char> {
    let e = lower_spec(ext);
    if e == "png"@ {
        "image/png"@
    } else if e == "jpg"@ || e == "jpeg"@ {
        "image/jpeg"@
    } else if e == "gif"@ {
        "image/gif"@
    } else if e == "webp"@ {
        "image/webp"@
    } else if e == "mp4"@ {
        "video/mp4"@
    } else if e == "mov"@ {
        "video/quicktime"@
    } else if e == "mp3"@ {
        "audio/mpeg"@
    } else if e == "wav"@ {
        "audio/wav"@
    } else if e == "txt"@ {
        "text/plain"@
    } else if e == "json"@ {
        "application/json"@
    } else {
        "application/octet-stream"@
    }
}

/// The MIME type of an extension does not depend on the case of its letters: an extension
/// gives the type that its lower-case form gives.
pub proof fn law_mime_ignores_case(ext: Seq<char>)
    ensures
        mime_for_extension(ext) == mime_for_extension(lower_spec(ext)),
{
    lemma_lower_idempotent(ext);
}

/// Image extensions are recognised in any case: whatever reads `jpg` or `jpeg` once lowered is
/// `image/jpeg`, and whatever reads `png` is `image/png`.
pub proof fn law_mime_images_any_case(ext: Seq<char>)
    ensures
        lower_spec(ext) == "jpg"@ || lower_spec(ext) == "jpeg"@ ==> mime_for_extension(ext)
            == "image/jpeg"@,
        lower_spec(ext) == "png"@ ==> mime_for_extension(ext) == "image/png"@,
{
    reveal_strlit("png");
    reveal_strlit("jpg");
    reveal_strlit("jpeg");
    if lower_spec(ext) == "jpg"@ || lower_spec(ext) == "jpeg"@ {
        assert(lower_spec(ext) != "png"@) by {
            assert(lower_spec(ext)[0] == 'j');
        }
    }
}

/// The MIME type of the file at `path`, from its extension.
pub open spec fn mime_type_spec(path: Seq<char>) -> Seq<char> {
    match extension_spec(path) {
        Some(e) => mime_for_extension(e),
        None => "application/octet-stream"@,
    }
}

/// The name recorded for the file at `path`: its file name, or `unknown`.
pub open spec fn recorded_file_name(path: Seq<char>) -> Seq<char> {
    match file_name_spec(path) {
        Some(f) => f,
        None => "unknown"@,
    }
}

/// `a` is the registration, under a fresh id, of the file at `path` for the given owners and
/// context: with the file's size when it exists (`file_size`), with a placeholder hash and
/// size 0 when not.
pub open spec fn registered(
    a: Asset,
    project_id: ProjectId,
    channel_id: ChannelId,
    asset_type: AssetType,
    source: AssetSource,
    provider: Option<ProviderKind>,
    model: Option<Seq<char>>,
    parent_asset: Option<AssetId>,
    path: Seq<char>,
    file_size: Option<u64>,
) -> bool {
    &&& is_random_id(a.id.0)
    &&& a.project_id == project_id
    &&& a.channel_id == channel_id
    &&& a.asset_type == asset_type
    &&& a.source == source
    &&& a.provider == provider
    &&& match (a.model, model) {
        (Some(m), Some(n)) => m@ == n,
        (None, None) => true,
        _ => false,
    }
    &&& a.parent_asset == parent_asset
    &&& a.path@ == path
    &&& a.mime_type@ == mime_type_spec(path)
    &&& a.created_at.secs >= 0
    &&& a.metadata.file_name@ == recorded_file_name(path)
    &&& a.metadata.path@ == path
    &&& match file_size {
        Some(size) => {
            &&& a.hash@ == "sha256:"@ + recorded_file_name(path)
            &&& a.size_bytes == size
            &&& a.metadata.exists
            &&& a.metadata.mime_type matches Some(m) && m@ == mime_type_spec(path)
            &&& a.metadata.size_bytes == Some(size)
        },
        None => {
            &&& a.hash@ == "sha256-placeholder"@
            &&& a.size_bytes == 0
            &&& !a.metadata.exists
            &&& a.metadata.mime_type is None
            &&& a.metadata.size_bytes is None
        },
    }
}

/// Registers the files of a project as assets.
pub struct AssetRegistry;

impl AssetRegistry {
    /// The MIME type for an extension.
    fn mime_for(ext: &str) -> (m: String)
        ensures
            m@ == mime_for_extension(ext@),
    {
        let m = if lowercase_equals(ext, "png") {
            "image/png"
        } else if lowercase_equals(ext, "jpg") || lowercase_equals(ext, "jpeg") {
            "image/jpeg"
        } else if lowercase_equals(ext, "gif") {
            "image/gif"
        } else if lowercase_equals(ext, "webp") {
            "image/webp"
        } else if lowercase_equals(ext, "mp4") {
            "video/mp4"
        } else if lowercase_equals(ext, "mov") {
            "video/quicktime"
        } else if lowercase_equals(ext, "mp3") {
            "audio/mpeg"
        } else if lowercase_equals(ext, "wav") {
            "audio/wav"
        } else if lowercase_equals(ext, "txt") {
            "text/plain"
        } else if lowercase_equals(ext, "json") {
            "application/json"
        } else {
            "application/octet-stream"
        };
        m.to_string()
    }

    /// The MIME type of the file at `path`, from its extension (`application/octet-stream`
    /// when the extension is unknown or missing).
    pub fn infer_mime_type(path: &str) -> (m: String)
        ensures
            m@ == mime_type_spec(path@),
    {
        match extension(path) {
            Some(ext) => Self::mime_for(ext),
            None => "application/octet-stream".to_string(),
        }
    }

    /// Registers the file at `path` with its provenance: the provider and model that made it
    /// and the asset it was derived from. `file_size` is the file's size when it exists.
    pub fn register_asset_with_context(
        project_id: ProjectId,
        channel_id: ChannelId,
        asset_type: AssetType,
        source: AssetSource,
        provider: Option<ProviderKind>,
        model: Option<String>,
        parent_asset: Option<AssetId>,
        path: &str,
        file_size: Option<u64>,
    ) -> (r: Result<Asset, AppError>)
        ensures
            r matches Ok(a) && registered(
                a,
                project_id,
                channel_id,
                asset_type,
                source,
                provider,
                match model {
                    Some(m) => Some(m@),
                    None => None,
                },
                parent_asset,
                path@,
                file_size,
            ),
    {
        let name = match file_name(path) {
            Some(f) => f.to_string(),
            None => "unknown".to_string(),
        };
        let mime_type = Self::infer_mime_type(path);
        let (hash, size_bytes, metadata) = match file_size {
            Some(size) => {
                let mut hash = "sha256:".to_string();
                hash.append(name.as_str());
                let metadata = AssetMetadata {
                    file_name: name.clone(),
                    path: path.to_string(),
                    exists: true,
                    mime_type: Some(mime_type.clone()),
                    size_bytes: Some(size),
                };
                (hash, size, metadata)
            },
            None => {
                let metadata = AssetMetadata {
                    file_name: name.clone(),
                    path: path.to_string(),
                    exists: false,
                    mime_type: None,
                    size_bytes: None,
                };
                ("sha256-placeholder".to_string(), 0, metadata)
            },
        };
        Ok(Asset {
            id: AssetId(generate_id()),
            project_id,
            channel_id,
            asset_type,
            source,
            provider,
            model,
            path: path.to_string(),
            hash,
            mime_type,
            size_bytes,
            metadata,
            created_at: now_instant(),
            parent_asset,
        })
    }

    /// Registers the file at `path` as an asset of the project, without provenance.
    /// `file_size` is the file's size when it exists.
    pub fn register_asset(
        project_id: ProjectId,
        channel_id: ChannelId,
        asset_type: AssetType,
        source: AssetSource,
        path: &str,
        file_size: Option<u64>,
    ) -> (r: Result<Asset, AppError>)
        ensures
            r matches Ok(a) && registered(
                a,
                project_id,
                channel_id,
                asset_type,
                source,
                None,
                None,
                None,
                path@,
                file_size,
            ),
    {
        Self::register_asset_with_context(
            project_id,
            channel_id,
            asset_type,
            source,
            None,
            None,
            None,
            path,
            file_size,
        )
    }
}

} // verus!
