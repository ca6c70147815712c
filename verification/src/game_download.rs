//! The lifecycle of a queued download as its owner sees it.

use vstd::prelude::*;

verus! {

/// Where a download stands.
#[derive(Debug, Clone, Copy, PartialEq, Eq, Structural)]
pub enum GameDownloadState {
    Uninitialised,
    Queued,
    Manifest,
    Downloading,
    Finished,
    Stalled,
    Failed,
    Cancelled,
}

/// Why a download could not be queued or started.
#[derive(Debug, Clone, Copy, PartialEq, Eq, Structural)]
pub enum GameDownloadError {
    ManifestAlreadyExists,
    ManifestDoesNotExist,
    ManifestDownloadError,
}

/// One chunk of a download, by its number.
#[derive(Debug, Clone, Copy, PartialEq, Eq, Structural)]
pub struct GameChunkCtx {
    pub chunk_id: usize,
}

/// The manifest of a download. It carries nothing yet: the chunk layout of a
/// download is described by `manifest::DropManifest`.
#[derive(Debug, Clone, Copy, PartialEq, Eq, Structural)]
pub struct GameDownloadManifest {}

/// A download as its owner tracks it.
#[derive(Debug, Clone)]
pub struct GameDownload {
    id: String,
    version: String,
    progress: usize,
    state: GameDownloadState,
    manifest: Option<GameDownloadManifest>,
}

impl GameDownload {
    pub closed spec fn state(&self) -> GameDownloadState {
        self.state
    }

    pub closed spec fn has_manifest(&self) -> bool {
        self.manifest is Some
    }

    pub closed spec fn id(&self) -> Seq<char> {
        self.id@
    }

    pub closed spec fn version(&self) -> Seq<char> {
        self.version@
    }

    /// A download that has not been queued and has no manifest.
    pub fn new(id: String, version: String) -> (download: Self)
        ensures
            download.state() == GameDownloadState::Uninitialised,
            !download.has_manifest(),
            download.id() == id@,
            download.version() == version@,
    {
        GameDownload {
            id,
            version,
            progress: 0,
            state: GameDownloadState::Uninitialised,
            manifest: None,
        }
    }

    /// Puts the download in `state`.
    pub fn change_state(&mut self, state: GameDownloadState)
        ensures
            final(self).state() == state,
            final(self).has_manifest() == old(self).has_manifest(),
            final(self).id() == old(self).id(),
            final(self).version() == old(self).version(),
    {
        self.state = state;
    }

    /// Where the download stands.
    pub fn current_state(&self) -> (state: GameDownloadState)
        ensures
            state == self.state(),
    {
        self.state
    }

    /// Whether a manifest may be fetched for the download: only where it has
    /// none yet.
    pub fn download_manifest(&self) -> (result: Result<(), GameDownloadError>)
        ensures
            self.has_manifest() ==> result == Err::<(), GameDownloadError>(
                GameDownloadError::ManifestAlreadyExists,
            ),
            !self.has_manifest() ==> result is Ok,
    {
        if self.manifest.is_some() {
            return Err(GameDownloadError::ManifestAlreadyExists);
        }
        Ok(())
    }

    /// Queues the download. A download that already holds a manifest is
    /// queued all the same, and the caller is told that the manifest exists.
    pub fn queue(&mut self) -> (result: Result<(), GameDownloadError>)
        ensures
            final(self).state() == GameDownloadState::Queued,
            final(self).has_manifest() == old(self).has_manifest(),
            final(self).id() == old(self).id(),
            final(self).version() == old(self).version(),
            old(self).has_manifest() ==> result == Err::<(), GameDownloadError>(
                GameDownloadError::ManifestAlreadyExists,
            ),
            !old(self).has_manifest() ==> result is Ok,
    {
        self.change_state(GameDownloadState::Queued);
        if self.manifest.is_none() {
            return Ok(());
        }
        self.download_manifest()
    }

    /// Starts the download. Without a manifest nothing starts and nothing
    /// changes.
    pub fn start_game_download(&mut self) -> (result: Result<(), GameDownloadError>)
        ensures
            final(self).has_manifest() == old(self).has_manifest(),
            final(self).id() == old(self).id(),
            final(self).version() == old(self).version(),
            !old(self).has_manifest() ==> (result == Err::<(), GameDownloadError>(
                GameDownloadError::ManifestDoesNotExist,
            ) && final(self).state() == old(self).state()),
            old(self).has_manifest() ==> (result is Ok && final(self).state()
                == GameDownloadState::Downloading),
    {
        if self.manifest.is_none() {
            return Err(GameDownloadError::ManifestDoesNotExist);
        }
        self.change_state(GameDownloadState::Downloading);
        Ok(())
    }

    /// Gives the download its manifest.
    pub fn set_manifest(&mut self, manifest: GameDownloadManifest)
        ensures
            final(self).has_manifest(),
            final(self).state() == old(self).state(),
            final(self).id() == old(self).id(),
            final(self).version() == old(self).version(),
    {
        self.manifest = Some(manifest);
    }
}

} // verus!
