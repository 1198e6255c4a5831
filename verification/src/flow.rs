//! The login flow in executable form. A caller feeds each event that the
//! outside world reports to [`step`], performs the action that comes back,
//! and goes on until the action is a reply.

use crate::http::{bad_request, redirect_to_profile, server_error, HttpReply};
use crate::model;
use crate::model::{ActionView, EventView, FlowStateView, LoginErrorView};
use crate::provider::{
    profile_reply_view, token_reply_view, ExchangeError, FetchError, GithubResponseLogin,
    GithubResponseUser,
};
use crate::query::code_param;
use crate::users::{insert_view, lookup_view, InsertError, NewUser, RepoError, User};
use vstd::prelude::*;
use vstd::utf8::is_ascii_chars;

verus! {

/// Where one login stands.
#[derive(Debug, PartialEq, Eq)]
pub enum FlowState {
    /// Nothing has happened yet: the request is awaited.
    AwaitingRequest,
    /// The code exchange was asked for.
    ExchangingCode,
    /// The profile fetch was asked for, with this access token.
    FetchingProfile { access_token: String },
    /// The lookup of the user was asked for; this record is stored if the
    /// lookup finds none.
    LookingUpUser { candidate: NewUser },
    /// The insert of the user was asked for.
    InsertingUser,
    /// The reply was given.
    Finished,
}

impl View for FlowState {
    type V = FlowStateView;

    open spec fn view(&self) -> FlowStateView {
        match self {
            FlowState::AwaitingRequest => FlowStateView::AwaitingRequest,
            FlowState::ExchangingCode => FlowStateView::ExchangingCode,
            FlowState::FetchingProfile { access_token } => FlowStateView::FetchingProfile {
                access_token: access_token@,
            },
            FlowState::LookingUpUser { candidate } => FlowStateView::LookingUpUser {
                candidate: candidate@,
            },
            FlowState::InsertingUser => FlowStateView::InsertingUser,
            FlowState::Finished => FlowStateView::Finished,
        }
    }
}

/// What the outside world reports to the flow.
#[derive(Debug, PartialEq, Eq)]
pub enum Event {
    /// The callback request arrived, with this query string.
    Request { query: String },
    /// The code exchange ended.
    TokenReply(Result<GithubResponseLogin, ExchangeError>),
    /// The profile fetch ended.
    ProfileReply(Result<GithubResponseUser, FetchError>),
    /// The lookup of the user ended.
    UserLookup(Result<Option<User>, RepoError>),
    /// The insert of the user ended.
    UserInsert(Result<User, InsertError>),
}

impl View for Event {
    type V = EventView;

    open spec fn view(&self) -> EventView {
        match self {
            Event::Request { query } => EventView::Request { query: query@ },
            Event::TokenReply(reply) => EventView::TokenReply(token_reply_view(*reply)),
            Event::ProfileReply(reply) => EventView::ProfileReply(profile_reply_view(*reply)),
            Event::UserLookup(reply) => EventView::UserLookup(lookup_view(*reply)),
            Event::UserInsert(reply) => EventView::UserInsert(insert_view(*reply)),
        }
    }
}

/// What the flow asks the outside world to do.
#[derive(Debug, PartialEq, Eq)]
pub enum Action {
    /// Trade this authorization code for an access token.
    ExchangeCode { code: String },
    /// Fetch the profile behind this access token.
    FetchProfile { access_token: String },
    /// Look up the stored user with this username.
    FindUser { username: String },
    /// Store this user.
    InsertUser(NewUser),
    /// Give this reply; the login is over.
    Respond(HttpReply),
}

impl View for Action {
    type V = ActionView;

    open spec fn view(&self) -> ActionView {
        match self {
            Action::ExchangeCode { code } => ActionView::ExchangeCode { code: code@ },
            Action::FetchProfile { access_token } => ActionView::FetchProfile {
                access_token: access_token@,
            },
            Action::FindUser { username } => ActionView::FindUser { username: username@ },
            Action::InsertUser(user) => ActionView::InsertUser(user@),
            Action::Respond(reply) => ActionView::Respond(reply@),
        }
    }
}

/// The kinds of failure that end a login.
#[derive(Debug, PartialEq, Eq)]
pub enum LoginError {
    /// The request lacks what it must carry.
    Validation,
    /// A call to the identity provider failed.
    ProviderExchange(String),
    /// The user store failed.
    Storage(String),
}

impl View for LoginError {
    type V = LoginErrorView;

    open spec fn view(&self) -> LoginErrorView {
        match self {
            LoginError::Validation => LoginErrorView::Validation,
            LoginError::ProviderExchange(message) => LoginErrorView::ProviderExchange(message@),
            LoginError::Storage(message) => LoginErrorView::Storage(message@),
        }
    }
}

/// Mathematical value of a step's outcome.
pub open spec fn step_view(step: (FlowState, Action)) -> (FlowStateView, ActionView) {
    (step.0@, step.1@)
}

/// Mathematical value of what [`step`] returns.
pub open spec fn outcome_view(outcome: Option<(FlowState, Action)>) -> Option<
    (FlowStateView, ActionView),
> {
    match outcome {
        Some(step) => Some(step_view(step)),
        None => None,
    }
}

/// Turns a failure into the reply that reports it.
pub fn error_reply(error: LoginError) -> (reply: HttpReply)
    ensures
        reply@ == model::error_reply(error@),
{
    match error {
        LoginError::Validation => bad_request(),
        LoginError::ProviderExchange(message) => server_error(message.as_str()),
        LoginError::Storage(message) => server_error(message.as_str()),
    }
}

/// Ends the login with the report of a failure.
pub fn fail(error: LoginError) -> (step: (FlowState, Action))
    ensures
        step_view(step) == model::fail(error@),
{
    (FlowState::Finished, Action::Respond(error_reply(error)))
}

/// Ends the login with the redirect to the profile page.
pub fn succeed() -> (step: (FlowState, Action))
    ensures
        step_view(step) == model::succeed(),
{
    (FlowState::Finished, Action::Respond(redirect_to_profile()))
}

/// Starts a login from the authorization code of the request, if it
/// carries one.
pub fn begin(code: Option<String>) -> (step: (FlowState, Action))
    ensures
        step_view(step) == model::begin(code.deep_view()),
{
    match code {
        None => fail(LoginError::Validation),
        Some(code) => (FlowState::ExchangingCode, Action::ExchangeCode { code }),
    }
}

/// Goes on after the code exchange.
pub fn after_token(reply: Result<GithubResponseLogin, ExchangeError>) -> (step: (
    FlowState,
    Action,
))
    ensures
        step_view(step) == model::after_token(token_reply_view(reply)),
{
    match reply {
        Err(error) => fail(LoginError::ProviderExchange(error.message())),
        Ok(answer) => {
            let access_token = answer.access_token;
            let copy = access_token.clone();
            (
                FlowState::FetchingProfile { access_token },
                Action::FetchProfile { access_token: copy },
            )
        },
    }
}

/// Goes on after the profile fetch that was made with `access_token`.
pub fn after_profile(access_token: String, reply: Result<GithubResponseUser, FetchError>) -> (step:
    (FlowState, Action))
    ensures
        step_view(step) == model::after_profile(access_token@, profile_reply_view(reply)),
{
    match reply {
        Err(error) => fail(LoginError::ProviderExchange(error.message())),
        Ok(profile) => {
            let username = profile.login.clone();
            let candidate = NewUser {
                username: profile.login,
                access_token_github: access_token,
                profile_picture_url: profile.avatar_url,
            };
            (FlowState::LookingUpUser { candidate }, Action::FindUser { username })
        },
    }
}

/// Goes on after the lookup of the user that `candidate` describes.
pub fn after_lookup(candidate: NewUser, reply: Result<Option<User>, RepoError>) -> (step: (
    FlowState,
    Action,
))
    ensures
        step_view(step) == model::after_lookup(candidate@, lookup_view(reply)),
{
    match reply {
        Err(error) => fail(LoginError::Storage(error.message())),
        Ok(Some(_)) => succeed(),
        Ok(None) => (FlowState::InsertingUser, Action::InsertUser(candidate)),
    }
}

/// Goes on after the insert of the user.
pub fn after_insert(reply: Result<User, InsertError>) -> (step: (FlowState, Action))
    ensures
        step_view(step) == model::after_insert(insert_view(reply)),
{
    match reply {
        Ok(_) => succeed(),
        Err(InsertError::UniqueViolation) => succeed(),
        Err(InsertError::Other(error)) => fail(LoginError::Storage(error.message())),
    }
}

/// Takes one step of the flow: given where the login stands and what the
/// outside world reports, says where the login stands next and what to do.
/// Returns `None` where the event is not the one that the state awaits.
///
/// The query string of a request must be ASCII, as the query of a request
/// line is.
pub fn step(state: FlowState, event: Event) -> (outcome: Option<(FlowState, Action)>)
    requires
        event matches Event::Request { query } ==> is_ascii_chars(query@),
    ensures
        outcome_view(outcome) == model::next(state@, event@),
{
    match (state, event) {
        (FlowState::AwaitingRequest, Event::Request { query }) => Some(
            begin(code_param(query.as_str())),
        ),
        (FlowState::ExchangingCode, Event::TokenReply(reply)) => Some(after_token(reply)),
        (FlowState::FetchingProfile { access_token }, Event::ProfileReply(reply)) => Some(
            after_profile(access_token, reply),
        ),
        (FlowState::LookingUpUser { candidate }, Event::UserLookup(reply)) => Some(
            after_lookup(candidate, reply),
        ),
        (FlowState::InsertingUser, Event::UserInsert(reply)) => Some(after_insert(reply)),
        _ => None,
    }
}

} // verus!
