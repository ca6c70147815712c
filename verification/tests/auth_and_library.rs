use drop_downloader::auth::{generate_authorization_header, setup, AppStatus, User};
use drop_downloader::error::RemoteAccessError;
use drop_downloader::game_download::{
    GameChunkCtx, GameDownload, GameDownloadError, GameDownloadManifest, GameDownloadState,
};
use drop_downloader::library::{
    get_current_meta, DownloadType, DownloadableMetadata, StatsUpdateEvent,
};
use drop_downloader::manifest::DropDownloadContext;
use drop_downloader::remote::{chunk_path, manifest_path};

fn user() -> User {
    User {
        id: "u1".to_string(),
        username: "ada".to_string(),
        admin: false,
        display_name: "Ada".to_string(),
        profile_picture: "pic".to_string(),
    }
}

fn meta(id: &str, version: Option<&str>) -> DownloadableMetadata {
    DownloadableMetadata {
        id: id.to_string(),
        version: version.map(|v| v.to_string()),
        download_type: DownloadType::Game,
    }
}

#[test]
fn authorization_header_layout() {
    let header = generate_authorization_header(
        &"client-7".to_string(),
        &"1700000000000".to_string(),
        &"a1b2c3".to_string(),
    );
    assert_eq!(header, "Nonce client-7 1700000000000 a1b2c3");
}

#[test]
fn authorization_header_keeps_empty_parts() {
    let header =
        generate_authorization_header(&String::new(), &"1".to_string(), &String::new());
    assert_eq!(header, "Nonce  1 ");
}

#[test]
fn without_credentials_the_client_is_signed_out() {
    let (status, user) = setup(None);
    assert_eq!(status, AppStatus::SignedOut);
    assert!(user.is_none());
}

#[test]
fn with_a_user_the_client_is_signed_in() {
    let (status, found) = setup(Some(Ok(user())));
    assert_eq!(status, AppStatus::SignedIn);
    assert_eq!(found.unwrap().username, "ada");
}

#[test]
fn unreachable_server_is_unavailable() {
    let (status, user) = setup(Some(Err(RemoteAccessError::FetchError("dns".to_string()))));
    assert_eq!(status, AppStatus::ServerUnavailable);
    assert!(user.is_none());
}

#[test]
fn any_other_failure_needs_new_credentials() {
    for error in [
        RemoteAccessError::InvalidCodeError(401),
        RemoteAccessError::ParsingError("bad".to_string()),
        RemoteAccessError::HandshakeFailed,
        RemoteAccessError::InvalidResponse(String::new()),
    ] {
        let (status, user) = setup(Some(Err(error)));
        assert_eq!(status, AppStatus::SignedInNeedsReauth);
        assert!(user.is_none());
    }
}

#[test]
fn installed_version_is_found_by_id() {
    let installed = vec![
        meta("alpha", Some("1.0")),
        meta("beta", None),
        meta("alpha", Some("2.0")),
    ];
    let found = get_current_meta(&installed, &"alpha".to_string()).unwrap();
    assert_eq!(found.version.as_deref(), Some("1.0"));
    let found = get_current_meta(&installed, &"beta".to_string()).unwrap();
    assert!(found.version.is_none());
    assert!(get_current_meta(&installed, &"gamma".to_string()).is_none());
    assert!(get_current_meta(&vec![], &"alpha".to_string()).is_none());
}

#[test]
fn manifest_path_encodes_the_version() {
    assert_eq!(
        manifest_path(&"game-1".to_string(), &"1.0".to_string()),
        "/api/v1/client/metadata/manifest?id=game-1&version=1.0"
    );
    assert_eq!(
        manifest_path(&"g".to_string(), &"v1 beta/2+x&y".to_string()),
        "/api/v1/client/metadata/manifest?id=g&version=v1%20beta%2F2%2Bx%26y"
    );
    assert_eq!(
        manifest_path(&"g".to_string(), &"A-z_0.9~".to_string()),
        "/api/v1/client/metadata/manifest?id=g&version=A-z_0.9~"
    );
    assert_eq!(
        manifest_path(&"g".to_string(), &"\u{e9}".to_string()),
        "/api/v1/client/metadata/manifest?id=g&version=%C3%A9"
    );
    assert_eq!(
        manifest_path(&"a b".to_string(), &String::new()),
        "/api/v1/client/metadata/manifest?id=a b&version="
    );
}

#[test]
fn chunk_path_names_game_version_file_and_chunk() {
    let context = DropDownloadContext {
        file_name: "bin/my game.exe".to_string(),
        version: "1.0 rc".to_string(),
        index: 12,
        offset: 4096,
        game_id: "game-1".to_string(),
        checksum: String::new(),
        length: 10,
        permissions: 0,
    };
    assert_eq!(
        chunk_path(&context),
        "/api/v1/client/chunk?id=game-1&version=1.0%20rc&name=bin%2Fmy%20game.exe&chunk=12"
    );
}

#[test]
fn a_new_download_is_uninitialised() {
    let download = GameDownload::new("game".to_string(), "1.0".to_string());
    assert_eq!(download.current_state(), GameDownloadState::Uninitialised);
}

#[test]
fn queueing_without_a_manifest() {
    let mut download = GameDownload::new("game".to_string(), "1.0".to_string());
    assert_eq!(download.queue(), Ok(()));
    assert_eq!(download.current_state(), GameDownloadState::Queued);
    assert_eq!(download.download_manifest(), Ok(()));
}

#[test]
fn queueing_with_a_manifest_reports_it() {
    let mut download = GameDownload::new("game".to_string(), "1.0".to_string());
    download.set_manifest(GameDownloadManifest {});
    assert_eq!(
        download.queue(),
        Err(GameDownloadError::ManifestAlreadyExists)
    );
    assert_eq!(download.current_state(), GameDownloadState::Queued);
    assert_eq!(
        download.download_manifest(),
        Err(GameDownloadError::ManifestAlreadyExists)
    );
}

#[test]
fn starting_needs_a_manifest() {
    let mut download = GameDownload::new("game".to_string(), "1.0".to_string());
    assert_eq!(
        download.start_game_download(),
        Err(GameDownloadError::ManifestDoesNotExist)
    );
    assert_eq!(download.current_state(), GameDownloadState::Uninitialised);
    download.set_manifest(GameDownloadManifest {});
    assert_eq!(download.start_game_download(), Ok(()));
    assert_eq!(download.current_state(), GameDownloadState::Downloading);
}

#[test]
fn state_can_be_changed() {
    let mut download = GameDownload::new("game".to_string(), "1.0".to_string());
    download.change_state(GameDownloadState::Stalled);
    assert_eq!(download.current_state(), GameDownloadState::Stalled);
}

#[test]
fn plain_values() {
    assert_eq!(GameChunkCtx { chunk_id: 3 }, GameChunkCtx { chunk_id: 3 });
    assert_ne!(GameChunkCtx { chunk_id: 3 }, GameChunkCtx { chunk_id: 4 });
    let stats = StatsUpdateEvent { speed: 1024, time: 60 };
    assert_eq!(stats, StatsUpdateEvent { speed: 1024, time: 60 });
}
