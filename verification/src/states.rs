//! The application's three-state mode machine and the asset-loading poll.
//!
//! The mode gates which systems run each tick; entering the level editor
//! creates a fresh session and leaving it tears the session down. Asset
//! loading is cooperative: the two source assets are polled until both
//! report ready, and a failed load surfaces as an abort instead of parking
//! the application on the loading screen forever.
use vstd::prelude::*;

verus! {

/// The application mode.
#[derive(Clone, Copy, PartialEq, Eq, Structural, Debug)]
pub enum GameState {
    MainMenu,
    InGame,
    LevelEditor,
}

impl Default for GameState {
    /// The application starts at the main menu.
    fn default() -> (r: GameState)
        ensures
            r == GameState::MainMenu,
    {
        GameState::MainMenu
    }
}

/// What the engine reports of one loading asset.
#[derive(Clone, Copy, PartialEq, Eq, Structural, Debug)]
pub enum LoadStatus {
    /// Still loading.
    Pending,
    /// Fully loaded.
    Ready,
    /// The load failed.
    Failed,
}

/// What the loading phase should do this tick.
#[derive(Clone, Copy, PartialEq, Eq, Structural, Debug)]
pub enum LoadPoll {
    /// Keep polling: neither asset has failed and at least one is pending.
    Wait,
    /// Both assets are ready: build the atlas and leave the loading phase.
    Build,
    /// A load failed: surface a diagnostic and fall back to a safe state.
    Abort,
}

/// The and-gate of the loading phase: build only once both assets are
/// ready, abort as soon as either load fails, wait otherwise.
pub fn poll_assets(image: LoadStatus, data: LoadStatus) -> (r: LoadPoll)
    ensures
        r is Abort <==> (image is Failed || data is Failed),
        r is Build <==> (image is Ready && data is Ready),
        r is Wait <==> (!(image is Failed || data is Failed) && !(image is Ready
            && data is Ready)),
{
    match (image, data) {
        (LoadStatus::Failed, _) => LoadPoll::Abort,
        (_, LoadStatus::Failed) => LoadPoll::Abort,
        (LoadStatus::Ready, LoadStatus::Ready) => LoadPoll::Build,
        _ => LoadPoll::Wait,
    }
}

} // verus!
