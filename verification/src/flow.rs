//! The fetch of a contribution calendar as a state machine. The machine names
//! the outside action that comes next; the host performs it and hands back
//! what happened as an event.
//!
//! The order is: look for the cache file; read it when it is fresh; otherwise
//! send the request, read the answer, store the days in the cache; finish.

use crate::cache::{cache_path, cache_verdict, check_cache, get_cache_path, CacheCheck, CachePath, CachePathView, CacheProbe};
use crate::day::{clone_days, day_views, ContributionDay, DayView, FetchResult, FetchView};
use crate::json::json_parse;
use crate::request::{build_request, request_for, ApiRequest, ApiRequestView};
use crate::response::{body_outcome, read_body};
use vstd::prelude::*;

verus! {

/// Where a fetch stands.
#[derive(Debug)]
pub enum FetchState {
    /// Waiting to hear whether there is a cache file, and how old it is.
    Probing { username: String, token: Option<String> },
    /// Waiting for the days that the cache file holds.
    Loading { username: String, token: Option<String> },
    /// Waiting for the status of the answer to the request.
    Sending { username: String, token: Option<String> },
    /// Waiting for the body of the answer.
    Receiving { username: String },
    /// Waiting for the cache file to be written.
    Storing { username: String, days: Vec<ContributionDay> },
    /// Done, with the days or with the message of the failure.
    Finished(Result<Vec<ContributionDay>, String>),
}

/// What the host reports back.
#[derive(Debug)]
pub enum FetchEvent {
    /// The cache file was looked for.
    Probed(CacheProbe),
    /// The cache file was read: the days it holds, or nothing when it could
    /// not be read or does not hold a list of days.
    Loaded(Option<Vec<ContributionDay>>),
    /// The request could not be sent or no answer came; the reason.
    Unreachable(String),
    /// An answer came, with this status code and status line.
    Status { code: u16, text: String },
    /// The body of the answer was read, or reading it failed for the reason
    /// given.
    Body(Result<Vec<u8>, String>),
    /// The cache file was written, or writing it was given up.
    Stored,
}

/// What the host is asked to do next.
#[derive(Debug)]
pub enum FetchAction {
    /// Look for the cache file and report with [`FetchEvent::Probed`].
    ProbeCache(CachePath),
    /// Read the cache file and report with [`FetchEvent::Loaded`].
    LoadCache(CachePath),
    /// Send the request and report with [`FetchEvent::Status`] or
    /// [`FetchEvent::Unreachable`].
    Send(ApiRequest),
    /// Read the body of the answer and report with [`FetchEvent::Body`].
    ReadBody,
    /// Write the days to the cache file, creating its directory when needed,
    /// and report with [`FetchEvent::Stored`] whether or not that worked.
    StoreCache { path: CachePath, days: Vec<ContributionDay> },
    /// Hand the result to the caller.
    Finish(FetchResult),
}

/// What a [`FetchState`] stands for.
pub enum StateView {
    Probing { username: Seq<char>, token: Option<Seq<char>> },
    Loading { username: Seq<char>, token: Option<Seq<char>> },
    Sending { username: Seq<char>, token: Option<Seq<char>> },
    Receiving { username: Seq<char> },
    Storing { username: Seq<char>, days: Seq<DayView> },
    Finished(FetchView),
}

/// What a [`FetchEvent`] stands for.
pub enum EventView {
    Probed(CacheProbe),
    Loaded(Option<Seq<DayView>>),
    Unreachable(Seq<char>),
    Status { code: u16, text: Seq<char> },
    Body(Result<Seq<u8>, Seq<char>>),
    Stored,
}

/// What a [`FetchAction`] stands for.
pub enum ActionView {
    ProbeCache(CachePathView),
    LoadCache(CachePathView),
    Send(ApiRequestView),
    ReadBody,
    StoreCache { path: CachePathView, days: Seq<DayView> },
    Finish(FetchView),
}

/// A token that may be absent, by its view.
pub open spec fn owned_token_view(token: Option<String>) -> Option<Seq<char>> {
    match token {
        Some(secret) => Some(secret@),
        None => None,
    }
}

impl View for FetchState {
    type V = StateView;

    open spec fn view(&self) -> StateView {
        match *self {
            FetchState::Probing { username, token } => StateView::Probing {
                username: username@,
                token: owned_token_view(token),
            },
            FetchState::Loading { username, token } => StateView::Loading {
                username: username@,
                token: owned_token_view(token),
            },
            FetchState::Sending { username, token } => StateView::Sending {
                username: username@,
                token: owned_token_view(token),
            },
            FetchState::Receiving { username } => StateView::Receiving { username: username@ },
            FetchState::Storing { username, days } => StateView::Storing {
                username: username@,
                days: day_views(days@),
            },
            FetchState::Finished(Ok(days)) => StateView::Finished(
                FetchView::Success(day_views(days@)),
            ),
            FetchState::Finished(Err(message)) => StateView::Finished(
                FetchView::Failure(message@),
            ),
        }
    }
}

impl View for FetchEvent {
    type V = EventView;

    open spec fn view(&self) -> EventView {
        match *self {
            FetchEvent::Probed(probe) => EventView::Probed(probe),
            FetchEvent::Loaded(Some(days)) => EventView::Loaded(Some(day_views(days@))),
            FetchEvent::Loaded(None) => EventView::Loaded(None),
            FetchEvent::Unreachable(reason) => EventView::Unreachable(reason@),
            FetchEvent::Status { code, text } => EventView::Status { code, text: text@ },
            FetchEvent::Body(Ok(bytes)) => EventView::Body(Ok(bytes@)),
            FetchEvent::Body(Err(reason)) => EventView::Body(Err(reason@)),
            FetchEvent::Stored => EventView::Stored,
        }
    }
}

impl View for FetchAction {
    type V = ActionView;

    open spec fn view(&self) -> ActionView {
        match *self {
            FetchAction::ProbeCache(path) => ActionView::ProbeCache(path@),
            FetchAction::LoadCache(path) => ActionView::LoadCache(path@),
            FetchAction::Send(request) => ActionView::Send(request@),
            FetchAction::ReadBody => ActionView::ReadBody,
            FetchAction::StoreCache { path, days } => ActionView::StoreCache {
                path: path@,
                days: day_views(days@),
            },
            FetchAction::Finish(result) => ActionView::Finish(result@),
        }
    }
}

/// A status code that reports success: 200 to 299.
pub open spec fn is_success(code: u16) -> bool {
    200 <= code < 300
}

/// The state in which a fetch begins.
pub open spec fn initial(username: Seq<char>, token: Option<Seq<char>>) -> StateView {
    StateView::Probing { username, token }
}

/// The action that a state waits for.
pub open spec fn pending(s: StateView) -> ActionView {
    match s {
        StateView::Probing { username, token } => ActionView::ProbeCache(cache_path(username)),
        StateView::Loading { username, token } => ActionView::LoadCache(cache_path(username)),
        StateView::Sending { username, token } => ActionView::Send(request_for(username, token)),
        StateView::Receiving { username } => ActionView::ReadBody,
        StateView::Storing { username, days } => ActionView::StoreCache {
            path: cache_path(username),
            days,
        },
        StateView::Finished(result) => ActionView::Finish(result),
    }
}

/// The state that follows `s` when the host reports `e`. An event that does
/// not answer the pending action of `s` leaves the state as it is.
pub open spec fn next(s: StateView, e: EventView) -> StateView {
    match (s, e) {
        (StateView::Probing { username, token }, EventView::Probed(probe)) => {
            if cache_verdict(probe) == CacheCheck::Fresh {
                StateView::Loading { username, token }
            } else {
                StateView::Sending { username, token }
            }
        },
        (StateView::Loading { username, token }, EventView::Loaded(content)) => match content {
            Some(days) => StateView::Finished(FetchView::Success(days)),
            None => StateView::Sending { username, token },
        },
        (StateView::Sending { username, token }, EventView::Unreachable(reason)) => {
            StateView::Finished(FetchView::Failure("Network error: "@ + reason))
        },
        (StateView::Sending { username, token }, EventView::Status { code, text }) => {
            if is_success(code) {
                StateView::Receiving { username }
            } else {
                StateView::Finished(FetchView::Failure("GitHub API error: "@ + text))
            }
        },
        (StateView::Receiving { username }, EventView::Body(body)) => match body {
            Ok(bytes) => match body_outcome(json_parse(bytes)) {
                Ok(days) => StateView::Storing { username, days },
                Err(message) => StateView::Finished(FetchView::Failure(message)),
            },
            Err(reason) => StateView::Finished(
                FetchView::Failure("JSON parse error: "@ + reason),
            ),
        },
        (StateView::Storing { username, days }, EventView::Stored) => StateView::Finished(
            FetchView::Success(days),
        ),
        _ => s,
    }
}

fn clone_token(token: &Option<String>) -> (copy: Option<String>)
    ensures
        owned_token_view(copy) == owned_token_view(*token),
{
    match token {
        Some(secret) => Some(secret.clone()),
        None => None,
    }
}

fn borrow_token(token: &Option<String>) -> (view: Option<&str>)
    ensures
        crate::request::token_view(view) == owned_token_view(*token),
{
    match token {
        Some(secret) => Some(secret.as_str()),
        None => None,
    }
}

/// Begins the fetch of the calendar of `username`, to be authorised by
/// `token` when one is given.
pub fn fetch_contributions(username: String, token: Option<String>) -> (state: FetchState)
    ensures
        state@ == initial(username@, owned_token_view(token)),
{
    FetchState::Probing { username, token }
}

impl FetchState {
    /// The action that the host is to perform in this state.
    pub fn action(&self) -> (action: FetchAction)
        ensures
            action@ == pending(self@),
            action matches FetchAction::Finish(result) ==> result.well_formed(),
    {
        match self {
            FetchState::Probing { username, token } => FetchAction::ProbeCache(
                get_cache_path(username.as_str()),
            ),
            FetchState::Loading { username, token } => FetchAction::LoadCache(
                get_cache_path(username.as_str()),
            ),
            FetchState::Sending { username, token } => FetchAction::Send(
                build_request(username.as_str(), borrow_token(token)),
            ),
            FetchState::Receiving { username } => FetchAction::ReadBody,
            FetchState::Storing { username, days } => FetchAction::StoreCache {
                path: get_cache_path(username.as_str()),
                days: clone_days(days),
            },
            FetchState::Finished(outcome) => match outcome {
                Ok(days) => FetchAction::Finish(FetchResult::success(clone_days(days))),
                Err(message) => FetchAction::Finish(FetchResult::failure(message.clone())),
            },
        }
    }

    /// Takes the host's report and moves to the state that follows.
    pub fn step(self, event: FetchEvent) -> (state: FetchState)
        ensures
            state@ == next(self@, event@),
    {
        match self {
            FetchState::Probing { username, token } => match event {
                FetchEvent::Probed(probe) => match check_cache(probe) {
                    CacheCheck::Fresh => FetchState::Loading { username, token },
                    _ => FetchState::Sending { username, token },
                },
                _ => FetchState::Probing { username, token },
            },
            FetchState::Loading { username, token } => match event {
                FetchEvent::Loaded(content) => match content {
                    Some(days) => FetchState::Finished(Ok(days)),
                    None => FetchState::Sending { username, token },
                },
                _ => FetchState::Loading { username, token },
            },
            FetchState::Sending { username, token } => match event {
                FetchEvent::Unreachable(reason) => FetchState::Finished(
                    Err(String::from_str("Network error: ").concat(reason.as_str())),
                ),
                FetchEvent::Status { code, text } => {
                    if 200 <= code && code < 300 {
                        FetchState::Receiving { username }
                    } else {
                        FetchState::Finished(
                            Err(String::from_str("GitHub API error: ").concat(text.as_str())),
                        )
                    }
                },
                _ => FetchState::Sending { username, token },
            },
            FetchState::Receiving { username } => match event {
                FetchEvent::Body(body) => match body {
                    Ok(bytes) => match read_body(bytes.as_slice()) {
                        Ok(days) => FetchState::Storing { username, days },
                        Err(message) => FetchState::Finished(Err(message)),
                    },
                    Err(reason) => FetchState::Finished(
                        Err(String::from_str("JSON parse error: ").concat(reason.as_str())),
                    ),
                },
                _ => FetchState::Receiving { username },
            },
            FetchState::Storing { username, days } => match event {
                FetchEvent::Stored => FetchState::Finished(Ok(days)),
                _ => FetchState::Storing { username, days },
            },
            FetchState::Finished(outcome) => FetchState::Finished(outcome),
        }
    }
}

} // verus!
