//! The access token in the credential store. A secret is addressed by a
//! service name and a user key. The platform's store is reached by the host;
//! this file says which request is made, how a failure is classed, and what a
//! store answers to a request, by a store that lives in memory.

use vstd::prelude::*;

verus! {

/// The service name under which the token is kept.
pub const SERVICE_NAME: &'static str = "gitpulse";

/// The user key under which the token is kept.
pub const USER_KEY: &'static str = "github_token";

/// The detail that the store in memory gives when it holds no secret under
/// the address asked for.
pub const NO_ENTRY: &'static str = "No matching entry found in secure storage";

/// A request to a credential store.
#[derive(Debug)]
pub enum TokenRequest {
    /// Create the secret, or replace the one that is there.
    Save { service: String, user: String, secret: String },
    /// Read the secret.
    Get { service: String, user: String },
    /// Remove the secret.
    Delete { service: String, user: String },
}

/// Why a credential store did not do what was asked; each with the message
/// that is shown to the caller.
#[derive(Debug)]
pub enum StoreError {
    /// The store could not be opened or read.
    StoreUnavailable(String),
    /// The store refused the write.
    WriteFailed(String),
    /// There is no secret under the address.
    NotFound(String),
}

/// The answer of a credential store.
#[derive(Debug)]
pub enum TokenReply {
    /// The secret was saved or removed.
    Done,
    /// The secret that was read.
    Secret(String),
    /// The request failed.
    Failed(StoreError),
}

/// What a [`TokenRequest`] stands for.
pub enum TokenRequestView {
    Save { service: Seq<char>, user: Seq<char>, secret: Seq<char> },
    Get { service: Seq<char>, user: Seq<char> },
    Delete { service: Seq<char>, user: Seq<char> },
}

/// What a [`StoreError`] stands for.
pub enum StoreErrorView {
    StoreUnavailable(Seq<char>),
    WriteFailed(Seq<char>),
    NotFound(Seq<char>),
}

/// What a [`TokenReply`] stands for.
pub enum TokenReplyView {
    Done,
    Secret(Seq<char>),
    Failed(StoreErrorView),
}

impl View for TokenRequest {
    type V = TokenRequestView;

    open spec fn view(&self) -> TokenRequestView {
        match *self {
            TokenRequest::Save { service, user, secret } => TokenRequestView::Save {
                service: service@,
                user: user@,
                secret: secret@,
            },
            TokenRequest::Get { service, user } => TokenRequestView::Get {
                service: service@,
                user: user@,
            },
            TokenRequest::Delete { service, user } => TokenRequestView::Delete {
                service: service@,
                user: user@,
            },
        }
    }
}

impl View for StoreError {
    type V = StoreErrorView;

    open spec fn view(&self) -> StoreErrorView {
        match *self {
            StoreError::StoreUnavailable(message) => StoreErrorView::StoreUnavailable(message@),
            StoreError::WriteFailed(message) => StoreErrorView::WriteFailed(message@),
            StoreError::NotFound(message) => StoreErrorView::NotFound(message@),
        }
    }
}

impl View for TokenReply {
    type V = TokenReplyView;

    open spec fn view(&self) -> TokenReplyView {
        match *self {
            TokenReply::Done => TokenReplyView::Done,
            TokenReply::Secret(secret) => TokenReplyView::Secret(secret@),
            TokenReply::Failed(error) => TokenReplyView::Failed(error@),
        }
    }
}

/// The message of an error.
pub open spec fn error_message(error: StoreErrorView) -> Seq<char> {
    match error {
        StoreErrorView::StoreUnavailable(message) => message,
        StoreErrorView::WriteFailed(message) => message,
        StoreErrorView::NotFound(message) => message,
    }
}

impl StoreError {
    /// The message that is shown to the caller.
    pub fn message(&self) -> (message: &String)
        ensures
            message@ == error_message(self@),
    {
        match self {
            StoreError::StoreUnavailable(message) => message,
            StoreError::WriteFailed(message) => message,
            StoreError::NotFound(message) => message,
        }
    }
}

/// The class of a failure. A store that could not be opened is unavailable,
/// whatever was asked of it. Once it is open, a save that fails was refused;
/// a get or a delete that fails did not find the secret when the store says
/// so (`no_entry`), and the store is unavailable otherwise.
pub open spec fn failure_class(
    request: TokenRequestView,
    opened: bool,
    no_entry: bool,
    message: Seq<char>,
) -> StoreErrorView {
    if !opened {
        StoreErrorView::StoreUnavailable(message)
    } else if request is Save {
        StoreErrorView::WriteFailed(message)
    } else if no_entry {
        StoreErrorView::NotFound(message)
    } else {
        StoreErrorView::StoreUnavailable(message)
    }
}

/// Classes a failure of the platform's store. `opened` tells whether the
/// entry could be opened before the failure, `no_entry` whether the store
/// reported that there is no such secret, and `message` is what the store
/// said.
pub fn classify_failure(request: &TokenRequest, opened: bool, no_entry: bool, message: String) -> (error:
    StoreError)
    ensures
        error@ == failure_class(request@, opened, no_entry, message@),
{
    if !opened {
        StoreError::StoreUnavailable(message)
    } else {
        match request {
            TokenRequest::Save { service, user, secret } => StoreError::WriteFailed(message),
            _ => if no_entry {
                StoreError::NotFound(message)
            } else {
                StoreError::StoreUnavailable(message)
            },
        }
    }
}

/// What the caller is told: the secret where one was read, nothing where the
/// request only changed the store, or the message of the failure.
pub open spec fn reply_outcome(reply: TokenReplyView) -> Result<Option<Seq<char>>, Seq<char>> {
    match reply {
        TokenReplyView::Done => Ok(None),
        TokenReplyView::Secret(secret) => Ok(Some(secret)),
        TokenReplyView::Failed(error) => Err(error_message(error)),
    }
}

/// An outcome by its views.
pub open spec fn outcome_view(outcome: Result<Option<String>, String>) -> Result<
    Option<Seq<char>>,
    Seq<char>,
> {
    match outcome {
        Ok(Some(secret)) => Ok(Some(secret@)),
        Ok(None) => Ok(None),
        Err(message) => Err(message@),
    }
}

impl TokenReply {
    /// Turns the reply into what the caller is told. A failure is surfaced as
    /// its message, unchanged.
    pub fn into_result(self) -> (outcome: Result<Option<String>, String>)
        ensures
            outcome_view(outcome) == reply_outcome(self@),
    {
        match self {
            TokenReply::Done => Ok(None),
            TokenReply::Secret(secret) => Ok(Some(secret)),
            TokenReply::Failed(error) => match error {
                StoreError::StoreUnavailable(message) => Err(message),
                StoreError::WriteFailed(message) => Err(message),
                StoreError::NotFound(message) => Err(message),
            },
        }
    }
}

/// The request that saves `token` under `service` and `user`.
pub fn save_token(service: &str, user: &str, token: &str) -> (request: TokenRequest)
    ensures
        request@ == (TokenRequestView::Save { service: service@, user: user@, secret: token@ }),
{
    TokenRequest::Save { service: service.to_owned(), user: user.to_owned(), secret: token.to_owned() }
}

/// The request that reads the token under `service` and `user`.
pub fn get_token(service: &str, user: &str) -> (request: TokenRequest)
    ensures
        request@ == (TokenRequestView::Get { service: service@, user: user@ }),
{
    TokenRequest::Get { service: service.to_owned(), user: user.to_owned() }
}

/// The request that removes the token under `service` and `user`.
pub fn delete_token(service: &str, user: &str) -> (request: TokenRequest)
    ensures
        request@ == (TokenRequestView::Delete { service: service@, user: user@ }),
{
    TokenRequest::Delete { service: service.to_owned(), user: user.to_owned() }
}

/// The request that saves the GitHub token.
pub fn save_github_token(token: String) -> (request: TokenRequest)
    ensures
        request@ == (TokenRequestView::Save {
            service: SERVICE_NAME@,
            user: USER_KEY@,
            secret: token@,
        }),
{
    TokenRequest::Save { service: SERVICE_NAME.to_owned(), user: USER_KEY.to_owned(), secret: token }
}

/// The request that reads the GitHub token.
pub fn get_github_token() -> (request: TokenRequest)
    ensures
        request@ == (TokenRequestView::Get { service: SERVICE_NAME@, user: USER_KEY@ }),
{
    get_token(SERVICE_NAME, USER_KEY)
}

/// The request that removes the GitHub token.
pub fn delete_github_token() -> (request: TokenRequest)
    ensures
        request@ == (TokenRequestView::Delete { service: SERVICE_NAME@, user: USER_KEY@ }),
{
    delete_token(SERVICE_NAME, USER_KEY)
}

} // verus!
