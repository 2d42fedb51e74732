//! The cache on disk: where the file of a user lies, when what it holds is
//! still trusted, and how the whole cache is cleared.

use vstd::prelude::*;

verus! {

/// The directory, below the host's data directory, that holds the cache.
pub const CACHE_DIR: &'static str = "cache";

/// The age in seconds beyond which a cache file is no longer trusted.
pub const CACHE_TTL_SECS: u64 = 300;

/// The message that a completed clearing reports.
pub const CLEARED: &'static str = "Cache cleared successfully";

/// The name of the cache file of `username`.
pub open spec fn cache_file_name(username: Seq<char>) -> Seq<char> {
    username + "_contributions.json"@
}

/// The place of a cache file, relative to the host's data directory.
#[derive(Debug)]
pub struct CachePath {
    pub dir: String,
    pub file: String,
}

/// What a [`CachePath`] stands for.
pub struct CachePathView {
    pub dir: Seq<char>,
    pub file: Seq<char>,
}

impl View for CachePath {
    type V = CachePathView;

    open spec fn view(&self) -> CachePathView {
        CachePathView { dir: self.dir@, file: self.file@ }
    }
}

/// The place of the cache file of `username`.
pub open spec fn cache_path(username: Seq<char>) -> CachePathView {
    CachePathView { dir: CACHE_DIR@, file: cache_file_name(username) }
}

/// The place of the cache file of `username`: inside [`CACHE_DIR`], under a
/// name that embeds the username, so that no two users share a file.
pub fn get_cache_path(username: &str) -> (path: CachePath)
    ensures
        path@ == cache_path(username@),
{
    CachePath {
        dir: CACHE_DIR.to_owned(),
        file: username.to_owned().concat("_contributions.json"),
    }
}

/// The time since a file was last modified: whole seconds, and the
/// nanoseconds beyond them.
#[derive(Clone, Copy, Debug)]
pub struct CacheAge {
    pub secs: u64,
    pub nanos: u32,
}

impl CacheAge {
    /// The age in nanoseconds.
    pub open spec fn nanoseconds(self) -> nat {
        (self.secs * 1_000_000_000 + self.nanos) as nat
    }
}

/// [`CACHE_TTL_SECS`] in nanoseconds.
pub open spec fn ttl_nanoseconds() -> nat {
    (CACHE_TTL_SECS * 1_000_000_000) as nat
}

/// What the host found when it looked for a cache file.
#[derive(Clone, Copy, Debug)]
pub enum CacheProbe {
    /// There is no such file.
    Missing,
    /// The place of the file or its metadata could not be read.
    Unreadable,
    /// The file exists. `age` is the time since it was last modified, where
    /// the file system and the clock allow telling.
    Found { age: Option<CacheAge> },
}

/// The verdict on a cache file.
#[derive(Clone, Copy, Debug, PartialEq, Eq, Structural)]
pub enum CacheCheck {
    /// The file is to be read.
    Fresh,
    /// The file is missing or too old.
    StaleOrAbsent,
    /// The file could not be examined.
    Error,
}

/// The verdict that follows from a probe. A file is fresh unless its age is
/// known and exceeds [`CACHE_TTL_SECS`], by however little.
pub open spec fn cache_verdict(probe: CacheProbe) -> CacheCheck {
    match probe {
        CacheProbe::Missing => CacheCheck::StaleOrAbsent,
        CacheProbe::Unreadable => CacheCheck::Error,
        CacheProbe::Found { age: Some(age) } => if age.nanoseconds() > ttl_nanoseconds() {
            CacheCheck::StaleOrAbsent
        } else {
            CacheCheck::Fresh
        },
        CacheProbe::Found { age: None } => CacheCheck::Fresh,
    }
}

/// Decides whether the cache file that `probe` describes is to be read.
pub fn check_cache(probe: CacheProbe) -> (verdict: CacheCheck)
    ensures
        verdict == cache_verdict(probe),
{
    match probe {
        CacheProbe::Missing => CacheCheck::StaleOrAbsent,
        CacheProbe::Unreadable => CacheCheck::Error,
        CacheProbe::Found { age } => match age {
            Some(age) => {
                let elapsed: u128 = (age.secs as u128) * 1_000_000_000 + (age.nanos as u128);
                let limit: u128 = (CACHE_TTL_SECS as u128) * 1_000_000_000;
                if elapsed > limit {
                    CacheCheck::StaleOrAbsent
                } else {
                    CacheCheck::Fresh
                }
            },
            None => CacheCheck::Fresh,
        },
    }
}

/// Where the clearing of the cache stands.
#[derive(Debug)]
pub enum ClearState {
    /// Waiting to hear where the cache directory lies and whether it exists.
    Locating,
    /// Waiting for the directory and all it holds to be removed.
    Removing,
    /// Waiting for the empty directory to be created.
    Creating,
    /// Done, with the confirmation or with the message of the failure.
    Finished(Result<String, String>),
}

/// What the host reports back while the cache is cleared.
#[derive(Debug)]
pub enum ClearEvent {
    /// The data directory is known; `exists` tells whether the cache
    /// directory is there.
    Located { exists: bool },
    /// The data directory could not be determined, for the reason given.
    Unresolved(String),
    /// The file system did what was asked.
    Done,
    /// The file system refused, for the reason given.
    Failed(String),
}

/// What the host is asked to do next while the cache is cleared.
#[derive(Debug)]
pub enum ClearAction {
    /// Find the data directory and look for `dir` in it; report with
    /// [`ClearEvent::Located`] or [`ClearEvent::Unresolved`].
    Locate { dir: String },
    /// Remove `dir` in the data directory with all it holds; report with
    /// [`ClearEvent::Done`] or [`ClearEvent::Failed`].
    RemoveDir { dir: String },
    /// Create `dir` in the data directory; report with [`ClearEvent::Done`]
    /// or [`ClearEvent::Failed`].
    CreateDir { dir: String },
    /// Hand the result to the caller.
    Finish(Result<String, String>),
}

/// What a [`ClearState`] stands for.
pub enum ClearStateView {
    Locating,
    Removing,
    Creating,
    Finished(Result<Seq<char>, Seq<char>>),
}

/// What a [`ClearEvent`] stands for.
pub enum ClearEventView {
    Located { exists: bool },
    Unresolved(Seq<char>),
    Done,
    Failed(Seq<char>),
}

/// What a [`ClearAction`] stands for.
pub enum ClearActionView {
    Locate { dir: Seq<char> },
    RemoveDir { dir: Seq<char> },
    CreateDir { dir: Seq<char> },
    Finish(Result<Seq<char>, Seq<char>>),
}

/// A result of two strings, by their views.
pub open spec fn text_result_view(r: Result<String, String>) -> Result<Seq<char>, Seq<char>> {
    match r {
        Ok(text) => Ok(text@),
        Err(text) => Err(text@),
    }
}

impl View for ClearState {
    type V = ClearStateView;

    open spec fn view(&self) -> ClearStateView {
        match *self {
            ClearState::Locating => ClearStateView::Locating,
            ClearState::Removing => ClearStateView::Removing,
            ClearState::Creating => ClearStateView::Creating,
            ClearState::Finished(outcome) => ClearStateView::Finished(text_result_view(outcome)),
        }
    }
}

impl View for ClearEvent {
    type V = ClearEventView;

    open spec fn view(&self) -> ClearEventView {
        match *self {
            ClearEvent::Located { exists } => ClearEventView::Located { exists },
            ClearEvent::Unresolved(reason) => ClearEventView::Unresolved(reason@),
            ClearEvent::Done => ClearEventView::Done,
            ClearEvent::Failed(reason) => ClearEventView::Failed(reason@),
        }
    }
}

impl View for ClearAction {
    type V = ClearActionView;

    open spec fn view(&self) -> ClearActionView {
        match *self {
            ClearAction::Locate { dir } => ClearActionView::Locate { dir: dir@ },
            ClearAction::RemoveDir { dir } => ClearActionView::RemoveDir { dir: dir@ },
            ClearAction::CreateDir { dir } => ClearActionView::CreateDir { dir: dir@ },
            ClearAction::Finish(outcome) => ClearActionView::Finish(text_result_view(outcome)),
        }
    }
}

/// The action that a state of the clearing waits for. Every action on the
/// file system is about [`CACHE_DIR`].
pub open spec fn clear_pending(s: ClearStateView) -> ClearActionView {
    match s {
        ClearStateView::Locating => ClearActionView::Locate { dir: CACHE_DIR@ },
        ClearStateView::Removing => ClearActionView::RemoveDir { dir: CACHE_DIR@ },
        ClearStateView::Creating => ClearActionView::CreateDir { dir: CACHE_DIR@ },
        ClearStateView::Finished(outcome) => ClearActionView::Finish(outcome),
    }
}

/// The state that follows `s` when the host reports `e`. A cache directory
/// that exists is removed first; then the directory is created, whether or
/// not there was one before, and only after that the confirmation is given.
/// The first failure ends the clearing with its reason. An event that does
/// not answer the pending action of `s` leaves the state as it is.
pub open spec fn clear_next(s: ClearStateView, e: ClearEventView) -> ClearStateView {
    match (s, e) {
        (ClearStateView::Locating, ClearEventView::Located { exists }) => if exists {
            ClearStateView::Removing
        } else {
            ClearStateView::Creating
        },
        (ClearStateView::Locating, ClearEventView::Unresolved(reason)) => ClearStateView::Finished(
            Err("Failed to get app data dir: "@ + reason),
        ),
        (ClearStateView::Removing, ClearEventView::Done) => ClearStateView::Creating,
        (ClearStateView::Removing, ClearEventView::Failed(reason)) => ClearStateView::Finished(
            Err(reason),
        ),
        (ClearStateView::Creating, ClearEventView::Done) => ClearStateView::Finished(
            Ok(CLEARED@),
        ),
        (ClearStateView::Creating, ClearEventView::Failed(reason)) => ClearStateView::Finished(
            Err(reason),
        ),
        _ => s,
    }
}

/// Begins the clearing of the cache.
pub fn clear_cache() -> (state: ClearState)
    ensures
        state@ == ClearStateView::Locating,
{
    ClearState::Locating
}

impl ClearState {
    /// The action that the host is to perform in this state.
    pub fn action(&self) -> (action: ClearAction)
        ensures
            action@ == clear_pending(self@),
    {
        match self {
            ClearState::Locating => ClearAction::Locate { dir: CACHE_DIR.to_owned() },
            ClearState::Removing => ClearAction::RemoveDir { dir: CACHE_DIR.to_owned() },
            ClearState::Creating => ClearAction::CreateDir { dir: CACHE_DIR.to_owned() },
            ClearState::Finished(outcome) => match outcome {
                Ok(text) => ClearAction::Finish(Ok(text.clone())),
                Err(text) => ClearAction::Finish(Err(text.clone())),
            },
        }
    }

    /// Takes the host's report and moves to the state that follows.
    pub fn step(self, event: ClearEvent) -> (state: ClearState)
        ensures
            state@ == clear_next(self@, event@),
    {
        match self {
            ClearState::Locating => match event {
                ClearEvent::Located { exists } => if exists {
                    ClearState::Removing
                } else {
                    ClearState::Creating
                },
                ClearEvent::Unresolved(reason) => ClearState::Finished(
                    Err(String::from_str("Failed to get app data dir: ").concat(reason.as_str())),
                ),
                _ => ClearState::Locating,
            },
            ClearState::Removing => match event {
                ClearEvent::Done => ClearState::Creating,
                ClearEvent::Failed(reason) => ClearState::Finished(Err(reason)),
                _ => ClearState::Removing,
            },
            ClearState::Creating => match event {
                ClearEvent::Done => ClearState::Finished(Ok(CLEARED.to_owned())),
                ClearEvent::Failed(reason) => ClearState::Finished(Err(reason)),
                _ => ClearState::Creating,
            },
            ClearState::Finished(outcome) => ClearState::Finished(outcome),
        }
    }
}

} // verus!
