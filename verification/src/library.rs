//! The games of the library as the client shows them, and which version of
//! each is installed.

use crate::error::RemoteAccessError;
use crate::remote::{percent_encoded, url_encode};
use vstd::prelude::*;
use vstd::string::StringExecFns;

verus! {

/// The platform a version of a game is built for.
#[derive(Debug, Clone, Copy, PartialEq, Eq, Structural)]
pub enum Platform {
    Windows,
    Linux,
}

/// Where a game stands on this machine.
#[derive(Debug, Clone)]
pub enum GameDownloadStatus {
    Remote,
    SetupRequired { version_name: String, install_dir: String },
    Installed { version_name: String, install_dir: String },
}

/// What is being done to a game right now.
#[derive(Debug, Clone)]
pub enum ApplicationTransientStatus {
    Downloading { version_name: String },
    Uninstalling,
    Updating { version_name: String },
    Running,
}

/// What kind of thing a download is.
#[derive(Debug, Clone, Copy, PartialEq, Eq, Structural)]
pub enum DownloadType {
    Game,
    Tool,
    DLC,
    Mod,
}

/// Which download an installed or queued item is.
#[derive(Debug, Clone)]
pub struct DownloadableMetadata {
    pub id: String,
    pub version: Option<String>,
    pub download_type: DownloadType,
}

/// A game of the library.
#[derive(Debug, Clone)]
pub struct Game {
    pub id: String,
    pub m_name: String,
    pub m_short_description: String,
    pub m_description: String,
    pub m_icon_id: String,
    pub m_banner_id: String,
    pub m_cover_id: String,
    pub m_image_library: Vec<String>,
}

/// A game together with where it stands on this machine.
#[derive(Debug)]
pub struct FetchGameStruct {
    pub game: Game,
    pub status: (Option<GameDownloadStatus>, Option<ApplicationTransientStatus>),
}

/// Tells the interface that a game's status changed.
#[derive(Debug)]
pub struct GameUpdateEvent {
    pub game_id: String,
    pub status: (Option<GameDownloadStatus>, Option<ApplicationTransientStatus>),
}

/// Tells the interface the current speed and the time left.
#[derive(Debug, Clone, Copy, PartialEq, Eq, Structural)]
pub struct StatsUpdateEvent {
    pub speed: usize,
    pub time: usize,
}

/// A version of a game that can be installed.
#[derive(Debug, Clone)]
pub struct GameVersionOption {
    pub version_index: usize,
    pub version_name: String,
    pub platform: Platform,
    pub setup_command: String,
    pub launch_command: String,
    pub delta: bool,
    pub umu_id_override: Option<String>,
}

/// Position of the first entry of `installed` for the game `game_id`, or the
/// length of `installed` where there is none.
pub open spec fn position_of(installed: Seq<DownloadableMetadata>, game_id: Seq<char>) -> int
    decreases installed.len(),
{
    if installed.len() == 0 {
        0
    } else if installed[0].id@ == game_id {
        0
    } else {
        1 + position_of(installed.skip(1), game_id)
    }
}

/// The position found is that of an entry for the game, no entry before it is
/// for the game, and where nothing is found no entry is for the game.
pub proof fn lemma_position_of(installed: Seq<DownloadableMetadata>, game_id: Seq<char>)
    ensures
        0 <= position_of(installed, game_id) <= installed.len(),
        position_of(installed, game_id) < installed.len() ==> installed[position_of(
            installed,
            game_id,
        )].id@ == game_id,
        forall|i: int|
            0 <= i < position_of(installed, game_id) ==> (#[trigger] installed[i]).id@ != game_id,
    decreases installed.len(),
{
    if installed.len() > 0 && installed[0].id@ != game_id {
        let rest = installed.skip(1);
        lemma_position_of(rest, game_id);
        assert forall|i: int| 0 <= i < position_of(installed, game_id) implies (
        #[trigger] installed[i]).id@ != game_id by {
            if i > 0 {
                assert(rest[i - 1] == installed[i]);
            }
        }
    }
}

/// The installed version of the game `game_id`: the first entry of
/// `installed` with that id, if there is one.
pub fn get_current_meta<'a>(installed: &'a Vec<DownloadableMetadata>, game_id: &String) -> (meta:
    Option<&'a DownloadableMetadata>)
    ensures
        match meta {
            Some(found) => {
                &&& position_of(installed@, game_id@) < installed@.len()
                &&& *found == installed@[position_of(installed@, game_id@)]
            },
            None => position_of(installed@, game_id@) == installed@.len(),
        },
{
    let mut i: usize = 0;
    assert(installed@.skip(0) =~= installed@);
    while i < installed.len()
        invariant
            i <= installed@.len(),
            position_of(installed@, game_id@) == i + position_of(
                installed@.skip(i as int),
                game_id@,
            ),
        decreases installed@.len() - i,
    {
        proof {
            assert(installed@.skip(i as int)[0] == installed@[i as int]);
            assert(installed@.skip(i as int).skip(1) =~= installed@.skip(i + 1));
        }
        if installed[i].id == *game_id {
            return Some(&installed[i]);
        }
        i = i + 1;
    }
    None
}

/// Where a game stands once its download has completed: installed, or, where
/// the version comes with a setup command, waiting for that command to be run.
pub fn completed_status(setup_command: &String, version_name: String, install_dir: String) -> (status:
    GameDownloadStatus)
    ensures
        setup_command@.len() == 0 ==> status == (GameDownloadStatus::Installed {
            version_name,
            install_dir,
        }),
        setup_command@.len() != 0 ==> status == (GameDownloadStatus::SetupRequired {
            version_name,
            install_dir,
        }),
{
    if setup_command.as_str().is_empty() {
        GameDownloadStatus::Installed { version_name, install_dir }
    } else {
        GameDownloadStatus::SetupRequired { version_name, install_dir }
    }
}

/// The directory a game is installed in, if it is on this machine at all.
pub fn installed_dir<'a>(status: &'a GameDownloadStatus) -> (dir: Option<&'a String>)
    ensures
        match *status {
            GameDownloadStatus::Remote => dir is None,
            GameDownloadStatus::SetupRequired { install_dir, .. } => dir == Some(&install_dir),
            GameDownloadStatus::Installed { install_dir, .. } => dir == Some(&install_dir),
        },
{
    match status {
        GameDownloadStatus::Remote => None,
        GameDownloadStatus::SetupRequired { install_dir, .. } => Some(install_dir),
        GameDownloadStatus::Installed { install_dir, .. } => Some(install_dir),
    }
}

/// The path and query under which the details of a version are served.
pub open spec fn spec_version_path(id: Seq<char>, version: Seq<char>) -> Seq<char> {
    "/api/v1/client/metadata/version?id="@ + id + "&version="@ + percent_encoded(
        vstd::utf8::encode_utf8(version),
    )
}

/// The path and query under which the details of the version that `meta`
/// names are served. Where `meta` names no version there is nothing to ask
/// for, and the game counts as not found.
pub fn version_path(meta: &DownloadableMetadata) -> (result: Result<String, RemoteAccessError>)
    ensures
        match meta.version {
            Some(version) => result matches Ok(path) && path@ == spec_version_path(
                meta.id@,
                version@,
            ),
            None => result == Err::<String, RemoteAccessError>(RemoteAccessError::GameNotFound),
        },
{
    let version = match &meta.version {
        Some(version) => version,
        None => {
            return Err(RemoteAccessError::GameNotFound);
        },
    };
    let mut path = String::from_str("/api/v1/client/metadata/version?id=");
    path.append(meta.id.as_str());
    path.append("&version=");
    let encoded = url_encode(version.as_str());
    path.append(encoded.as_str());
    Ok(path)
}

/// The server's answer to a request for one game: 404 means the game is not
/// there, any other status but 200 is an invalid response that carries the
/// body.
pub fn game_response(status: u16, body: String) -> (result: Result<(), RemoteAccessError>)
    ensures
        status == 200 ==> result is Ok,
        status == 404 ==> result == Err::<(), RemoteAccessError>(RemoteAccessError::GameNotFound),
        status != 200 && status != 404 ==> (result matches Err(
            RemoteAccessError::InvalidResponse(text),
        ) && text@ == body@),
{
    if status == 404 {
        return Err(RemoteAccessError::GameNotFound);
    }
    if status != 200 {
        return Err(RemoteAccessError::InvalidResponse(body));
    }
    Ok(())
}

/// The name of the event that tells the interface of a change to a game.
pub fn update_event_name(game_id: &String) -> (name: String)
    ensures
        name@ == "update_game/"@ + game_id@,
{
    let mut name = String::from_str("update_game/");
    name.append(game_id.as_str());
    name
}

} // verus!
