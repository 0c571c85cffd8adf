use animatrix::assets::{AssetRegistry, AssetSource, AssetType};
use animatrix::base::{generate_id, ChannelId, ProjectId, ProviderKind};

#[test]
fn asset_registration_builds_provenance() {
    let project_id = ProjectId(generate_id());
    let channel_id = ChannelId(generate_id());

    let asset = AssetRegistry::register_asset(
        project_id,
        channel_id,
        AssetType::Image,
        AssetSource::Generated,
        "/tmp/storyboard.png",
        None,
    )
    .unwrap();

    assert_eq!(asset.project_id, project_id);
    assert_eq!(asset.channel_id, channel_id);
    assert_eq!(asset.asset_type, AssetType::Image);
    assert_eq!(asset.source, AssetSource::Generated);
}

#[test]
fn asset_registration_infers_file_metadata() {
    let project_id = ProjectId(generate_id());
    let channel_id = ChannelId(generate_id());
    let temp_path = format!("/tmp/animatrix-asset-{}.txt", generate_id());
    // The file holds "hello world": 11 bytes.
    let size = "hello world".len() as u64;

    let asset = AssetRegistry::register_asset(
        project_id,
        channel_id,
        AssetType::Scene,
        AssetSource::Generated,
        &temp_path,
        Some(size),
    )
    .unwrap();

    assert_eq!(asset.size_bytes, 11);
    assert_eq!(asset.mime_type, "text/plain");
    assert_eq!(asset.metadata.file_name, temp_path.rsplit('/').next().unwrap());
}

#[test]
fn mime_types_follow_the_extension() {
    let cases = [
        ("a/b/frame.PNG", "image/png"),
        ("x.jpg", "image/jpeg"),
        ("x.JpEg", "image/jpeg"),
        ("x.gif", "image/gif"),
        ("x.webp", "image/webp"),
        ("clip.mp4", "video/mp4"),
        ("clip.mov", "video/quicktime"),
        ("song.mp3", "audio/mpeg"),
        ("voice.wav", "audio/wav"),
        ("notes.txt", "text/plain"),
        ("data.json", "application/json"),
        ("archive.tar.gz", "application/octet-stream"),
        ("noextension", "application/octet-stream"),
        (".bashrc", "application/octet-stream"),
        ("dir.png/", "image/png"),
        ("dir/file.txt/.", "text/plain"),
        ("dir/..", "application/octet-stream"),
        ("/", "application/octet-stream"),
        ("", "application/octet-stream"),
        ("trailing.", "application/octet-stream"),
    ];
    for (path, mime) in cases {
        assert_eq!(AssetRegistry::infer_mime_type(path), mime, "path {path:?}");
    }
}

#[test]
fn missing_files_get_a_placeholder() {
    let asset = AssetRegistry::register_asset(
        ProjectId(1),
        ChannelId(2),
        AssetType::Audio,
        AssetSource::Imported,
        "/media/take-3.wav",
        None,
    )
    .unwrap();
    assert_eq!(asset.hash, "sha256-placeholder");
    assert_eq!(asset.size_bytes, 0);
    assert_eq!(asset.mime_type, "audio/wav");
    assert!(!asset.metadata.exists);
    assert_eq!(asset.metadata.file_name, "take-3.wav");
    assert_eq!(asset.metadata.mime_type, None);
    assert_eq!(asset.provider, None);
}

#[test]
fn existing_files_are_hashed_by_name_with_context() {
    let asset = AssetRegistry::register_asset_with_context(
        ProjectId(1),
        ChannelId(2),
        AssetType::Video,
        AssetSource::Generated,
        Some(ProviderKind::Local),
        Some("animatrix-render".to_string()),
        None,
        "/out/render.mp4",
        Some(2048),
    )
    .unwrap();
    assert_eq!(asset.hash, "sha256:render.mp4");
    assert_eq!(asset.size_bytes, 2048);
    assert_eq!(asset.metadata.size_bytes, Some(2048));
    assert_eq!(asset.metadata.mime_type.as_deref(), Some("video/mp4"));
    assert_eq!(asset.model.as_deref(), Some("animatrix-render"));
    assert_eq!(asset.provider, Some(ProviderKind::Local));

    let nameless = AssetRegistry::register_asset(ProjectId(1), ChannelId(2), AssetType::Other, AssetSource::Local, "/", Some(0)).unwrap();
    assert_eq!(nameless.hash, "sha256:unknown");
}
