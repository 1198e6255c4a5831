//! The login flow as a mathematical state machine: its states, the events
//! it awaits, the actions it asks for, and what holds of every run.

use crate::http::{bad_request_reply, redirect_reply, server_error_reply, HttpReplyView};
use crate::provider::{
    exchange_error_text, fetch_error_text, ExchangeErrorView, FetchErrorView,
    GithubResponseLoginView, GithubResponseUserView,
};
use crate::query::code_of;
use crate::table::ensure_result;
use crate::users::{repo_error_text, InsertErrorView, NewUserView, RepoErrorView, UserView};
use vstd::prelude::*;

verus! {

/// Where one login stands.
pub enum FlowStateView {
    /// Nothing has happened yet: the request is awaited.
    AwaitingRequest,
    /// The code exchange was asked for.
    ExchangingCode,
    /// The profile fetch was asked for, with this access token.
    FetchingProfile { access_token: Seq<char> },
    /// The lookup of the user was asked for; this record is stored if the
    /// lookup finds none.
    LookingUpUser { candidate: NewUserView },
    /// The insert of the user was asked for.
    InsertingUser,
    /// The reply was given.
    Finished,
}

/// What the outside world reports to the flow.
pub enum EventView {
    Request { query: Seq<char> },
    TokenReply(Result<GithubResponseLoginView, ExchangeErrorView>),
    ProfileReply(Result<GithubResponseUserView, FetchErrorView>),
    UserLookup(Result<Option<UserView>, RepoErrorView>),
    UserInsert(Result<UserView, InsertErrorView>),
}

/// What the flow asks the outside world to do.
pub enum ActionView {
    ExchangeCode { code: Seq<char> },
    FetchProfile { access_token: Seq<char> },
    FindUser { username: Seq<char> },
    InsertUser(NewUserView),
    Respond(HttpReplyView),
}

/// The kinds of failure that end a login.
pub enum LoginErrorView {
    /// The request lacks what it must carry.
    Validation,
    /// A call to the identity provider failed.
    ProviderExchange(Seq<char>),
    /// The user store failed.
    Storage(Seq<char>),
}

/// The reply that reports a failure: 400 for a request that is not valid,
/// 500 with the message for every other kind.
pub open spec fn error_reply(error: LoginErrorView) -> HttpReplyView {
    match error {
        LoginErrorView::Validation => bad_request_reply(),
        LoginErrorView::ProviderExchange(message) => server_error_reply(message),
        LoginErrorView::Storage(message) => server_error_reply(message),
    }
}

/// The step that ends the login with the report of a failure.
pub open spec fn fail(error: LoginErrorView) -> (FlowStateView, ActionView) {
    (FlowStateView::Finished, ActionView::Respond(error_reply(error)))
}

/// The step that ends the login with the redirect to the profile page.
pub open spec fn succeed() -> (FlowStateView, ActionView) {
    (FlowStateView::Finished, ActionView::Respond(redirect_reply()))
}

/// The user record that a login stores: the provider's login name and
/// avatar with the access token that fetched them.
pub open spec fn candidate(
    access_token: Seq<char>,
    profile: GithubResponseUserView,
) -> NewUserView {
    NewUserView {
        username: profile.login,
        access_token_github: access_token,
        profile_picture_url: profile.avatar_url,
    }
}

/// First step: a request without a code is turned away, one with a code
/// has the code exchanged.
pub open spec fn begin(code: Option<Seq<char>>) -> (FlowStateView, ActionView) {
    match code {
        None => fail(LoginErrorView::Validation),
        Some(code) => (FlowStateView::ExchangingCode, ActionView::ExchangeCode { code }),
    }
}

/// After the code exchange: a failure ends the login, an answer has the
/// profile fetched with its access token.
pub open spec fn after_token(reply: Result<GithubResponseLoginView, ExchangeErrorView>) -> (
    FlowStateView,
    ActionView,
) {
    match reply {
        Err(error) => fail(LoginErrorView::ProviderExchange(exchange_error_text(error))),
        Ok(answer) => (
            FlowStateView::FetchingProfile { access_token: answer.access_token },
            ActionView::FetchProfile { access_token: answer.access_token },
        ),
    }
}

/// After the profile fetch: a failure ends the login, a profile has its
/// user looked up.
pub open spec fn after_profile(
    access_token: Seq<char>,
    reply: Result<GithubResponseUserView, FetchErrorView>,
) -> (FlowStateView, ActionView) {
    match reply {
        Err(error) => fail(LoginErrorView::ProviderExchange(fetch_error_text(error))),
        Ok(profile) => (
            FlowStateView::LookingUpUser { candidate: candidate(access_token, profile) },
            ActionView::FindUser { username: profile.login },
        ),
    }
}

/// After the lookup: a failure ends the login, a stored user is left as
/// it is and the login succeeds, a missing one is inserted.
pub open spec fn after_lookup(
    candidate: NewUserView,
    reply: Result<Option<UserView>, RepoErrorView>,
) -> (FlowStateView, ActionView) {
    match reply {
        Err(error) => fail(LoginErrorView::Storage(repo_error_text(error))),
        Ok(Some(_)) => succeed(),
        Ok(None) => (FlowStateView::InsertingUser, ActionView::InsertUser(candidate)),
    }
}

/// After the insert: the login succeeds where the user was stored, and
/// also where another login stored the same user first; any other failure
/// ends the login.
pub open spec fn after_insert(reply: Result<UserView, InsertErrorView>) -> (
    FlowStateView,
    ActionView,
) {
    match reply {
        Ok(_) => succeed(),
        Err(InsertErrorView::UniqueViolation) => succeed(),
        Err(InsertErrorView::Other(error)) => fail(
            LoginErrorView::Storage(repo_error_text(error)),
        ),
    }
}

/// One step of the flow: the next state and the action to take, or `None`
/// where the event is not the one that the state awaits.
pub open spec fn next(state: FlowStateView, event: EventView) -> Option<
    (FlowStateView, ActionView),
> {
    match (state, event) {
        (FlowStateView::AwaitingRequest, EventView::Request { query }) => Some(
            begin(code_of(query)),
        ),
        (FlowStateView::ExchangingCode, EventView::TokenReply(reply)) => Some(after_token(reply)),
        (FlowStateView::FetchingProfile { access_token }, EventView::ProfileReply(reply)) => Some(
            after_profile(access_token, reply),
        ),
        (FlowStateView::LookingUpUser { candidate }, EventView::UserLookup(reply)) => Some(
            after_lookup(candidate, reply),
        ),
        (FlowStateView::InsertingUser, EventView::UserInsert(reply)) => Some(after_insert(reply)),
        _ => None,
    }
}

/// What a whole login does to the table of users and what it replies,
/// given the code of the request and what the provider answers to the code
/// exchange and to the profile fetch.
pub open spec fn login_result(
    rows: Seq<UserView>,
    code: Option<Seq<char>>,
    exchange: Result<GithubResponseLoginView, ExchangeErrorView>,
    fetch: Result<GithubResponseUserView, FetchErrorView>,
) -> (Seq<UserView>, HttpReplyView) {
    match (code, exchange, fetch) {
        (None, _, _) => (rows, error_reply(LoginErrorView::Validation)),
        (Some(_), Err(error), _) => (
            rows,
            error_reply(LoginErrorView::ProviderExchange(exchange_error_text(error))),
        ),
        (Some(_), Ok(_), Err(error)) => (
            rows,
            error_reply(LoginErrorView::ProviderExchange(fetch_error_text(error))),
        ),
        (Some(_), Ok(answer), Ok(profile)) => {
            let (after, stored) = ensure_result(rows, candidate(answer.access_token, profile));
            match stored {
                Ok(_) => (after, redirect_reply()),
                Err(error) => (after, error_reply(LoginErrorView::Storage(repo_error_text(error)))),
            }
        },
    }
}

/// The actions that a run of the flow asks for: the flow starts in
/// `state` and is fed the events one by one, until they run out or one of
/// them is not the event that the state awaits.
pub open spec fn run(state: FlowStateView, events: Seq<EventView>) -> Seq<ActionView>
    decreases events.len(),
{
    if events.len() == 0 {
        Seq::empty()
    } else {
        match next(state, events.first()) {
            None => Seq::empty(),
            Some((after, action)) => seq![action] + run(after, events.drop_first()),
        }
    }
}

/// How far a login has come.
pub open spec fn rank(state: FlowStateView) -> int {
    match state {
        FlowStateView::AwaitingRequest => 0,
        FlowStateView::ExchangingCode => 1,
        FlowStateView::FetchingProfile { .. } => 2,
        FlowStateView::LookingUpUser { .. } => 3,
        FlowStateView::InsertingUser => 4,
        FlowStateView::Finished => 5,
    }
}

/// The place of an action in the order of a login: the code exchange, the
/// profile fetch, the lookup, the insert, the reply.
pub open spec fn stage(action: ActionView) -> int {
    match action {
        ActionView::ExchangeCode { .. } => 1,
        ActionView::FetchProfile { .. } => 2,
        ActionView::FindUser { .. } => 3,
        ActionView::InsertUser(_) => 4,
        ActionView::Respond(_) => 5,
    }
}

/// True of the actions that call the identity provider.
pub open spec fn calls_provider(action: ActionView) -> bool {
    action is ExchangeCode || action is FetchProfile
}

/// True of the actions that call the user store.
pub open spec fn calls_store(action: ActionView) -> bool {
    action is FindUser || action is InsertUser
}

/// Every step moves the login forward, and the action that it asks for is
/// the one that the new state waits on.
pub proof fn lemma_step_advances(state: FlowStateView, event: EventView)
    ensures
        next(state, event) matches Some((after, action)) ==> rank(state) < rank(after) && stage(
            action,
        ) == rank(after),
{
}

/// Nothing follows the reply: a finished login takes no event.
pub proof fn lemma_finished_is_final(events: Seq<EventView>)
    ensures
        run(FlowStateView::Finished, events) == Seq::<ActionView>::empty(),
{
}

/// The actions of every run come in the order of the stages, each stage
/// at most once: nothing is tried again, nothing is asked for after the
/// reply, and a reply is the last action of its run.
pub proof fn lemma_run_in_order(state: FlowStateView, events: Seq<EventView>)
    ensures
        forall|i: int|
            0 <= i < run(state, events).len() ==> rank(state) < stage(
                #[trigger] run(state, events)[i],
            ),
        forall|i: int, j: int|
            0 <= i < j < run(state, events).len() ==> stage(#[trigger] run(state, events)[i])
                < stage(#[trigger] run(state, events)[j]),
        forall|i: int|
            0 <= i < run(state, events).len() && (#[trigger] run(state, events)[i]) is Respond
                ==> i == run(state, events).len() - 1,
    decreases events.len(),
{
    let actions = run(state, events);
    if events.len() > 0 {
        match next(state, events.first()) {
            None => {},
            Some((after, action)) => {
                let rest = run(after, events.drop_first());
                lemma_step_advances(state, events.first());
                lemma_run_in_order(after, events.drop_first());
                assert(actions == seq![action] + rest);
                assert forall|i: int| 0 <= i < actions.len() implies rank(state) < stage(
                    #[trigger] actions[i],
                ) by {
                    if i > 0 {
                        assert(actions[i] == rest[i - 1]);
                    }
                }
                assert forall|i: int, j: int| 0 <= i < j < actions.len() implies stage(
                    #[trigger] actions[i],
                ) < stage(#[trigger] actions[j]) by {
                    assert(actions[j] == rest[j - 1]);
                    if i > 0 {
                        assert(actions[i] == rest[i - 1]);
                    }
                }
                assert forall|i: int|
                    0 <= i < actions.len() && (#[trigger] actions[i]) is Respond implies i
                    == actions.len() - 1 by {
                    if i < actions.len() - 1 {
                        assert(stage(actions[i]) < stage(actions[i + 1]));
                    }
                }
            },
        }
    }
}

/// No run asks for more than five actions, and a login that has come some
/// way asks for as many fewer.
pub proof fn lemma_run_is_short(state: FlowStateView, events: Seq<EventView>)
    ensures
        run(state, events).len() <= 5 - rank(state),
    decreases events.len(),
{
    if events.len() > 0 {
        match next(state, events.first()) {
            None => {},
            Some((after, _)) => {
                lemma_step_advances(state, events.first());
                lemma_run_is_short(after, events.drop_first());
            },
        }
    }
}

/// A request without a code gets the reply 400 and nothing else happens:
/// whatever is reported afterwards, no call goes to the provider and none
/// to the user store.
pub proof fn lemma_missing_code_is_refused(query: Seq<char>, later: Seq<EventView>)
    requires
        code_of(query) is None,
    ensures
        run(FlowStateView::AwaitingRequest, seq![EventView::Request { query }] + later) == seq![
            ActionView::Respond(bad_request_reply()),
        ],
        forall|i: int|
            0 <= i < run(
                FlowStateView::AwaitingRequest,
                seq![EventView::Request { query }] + later,
            ).len() ==> {
                let action = #[trigger] run(
                    FlowStateView::AwaitingRequest,
                    seq![EventView::Request { query }] + later,
                )[i];
                !calls_provider(action) && !calls_store(action)
            },
{
    let events = seq![EventView::Request { query }] + later;
    assert(events.first() == EventView::Request { query });
    lemma_finished_is_final(events.drop_first());
    assert(run(FlowStateView::AwaitingRequest, events) =~= seq![
        ActionView::Respond(bad_request_reply()),
    ]);
}

/// A run takes its first event and goes on with the others.
pub proof fn lemma_run_unfolds(state: FlowStateView, event: EventView, later: Seq<EventView>)
    ensures
        run(state, seq![event] + later) == match next(state, event) {
            None => Seq::<ActionView>::empty(),
            Some((after, action)) => seq![action] + run(after, later),
        },
{
    let events = seq![event] + later;
    assert(events.first() == event);
    assert(events.drop_first() =~= later);
}

/// Where the code exchange fails, the login ends with the reply 500 that
/// reports the failure, and the profile is never fetched.
pub proof fn lemma_failed_exchange_ends_login(
    query: Seq<char>,
    error: ExchangeErrorView,
    later: Seq<EventView>,
)
    requires
        code_of(query) is Some,
    ensures
        ({
            let actions = run(
                FlowStateView::AwaitingRequest,
                seq![EventView::Request { query }, EventView::TokenReply(Err(error))] + later,
            );
            &&& actions == seq![
                ActionView::ExchangeCode { code: code_of(query)->0 },
                ActionView::Respond(server_error_reply(exchange_error_text(error))),
            ]
            &&& forall|i: int| 0 <= i < actions.len() ==> !((#[trigger] actions[i]) is FetchProfile)
        }),
{
    let first = EventView::Request { query };
    let second = EventView::TokenReply(Err(error));
    assert(seq![first, second] + later =~= seq![first] + (seq![second] + later));
    lemma_run_unfolds(FlowStateView::AwaitingRequest, first, seq![second] + later);
    lemma_run_unfolds(FlowStateView::ExchangingCode, second, later);
    lemma_finished_is_final(later);
    assert(run(FlowStateView::AwaitingRequest, seq![first, second] + later) =~= seq![
        ActionView::ExchangeCode { code: code_of(query)->0 },
        ActionView::Respond(server_error_reply(exchange_error_text(error))),
    ]);
}

/// Where the profile fetch fails, the login ends with the reply 500 that
/// reports the failure, and the user store is never called.
pub proof fn lemma_failed_fetch_ends_login(
    query: Seq<char>,
    answer: GithubResponseLoginView,
    error: FetchErrorView,
    later: Seq<EventView>,
)
    requires
        code_of(query) is Some,
    ensures
        ({
            let actions = run(
                FlowStateView::AwaitingRequest,
                seq![
                    EventView::Request { query },
                    EventView::TokenReply(Ok(answer)),
                    EventView::ProfileReply(Err(error)),
                ] + later,
            );
            &&& actions == seq![
                ActionView::ExchangeCode { code: code_of(query)->0 },
                ActionView::FetchProfile { access_token: answer.access_token },
                ActionView::Respond(server_error_reply(fetch_error_text(error))),
            ]
            &&& forall|i: int| 0 <= i < actions.len() ==> !calls_store(#[trigger] actions[i])
        }),
{
    let first = EventView::Request { query };
    let second = EventView::TokenReply(Ok(answer));
    let third = EventView::ProfileReply(Err(error));
    assert(seq![first, second, third] + later =~= seq![first] + (seq![second] + (seq![third]
        + later)));
    lemma_run_unfolds(FlowStateView::AwaitingRequest, first, seq![second] + (seq![third] + later));
    lemma_run_unfolds(FlowStateView::ExchangingCode, second, seq![third] + later);
    lemma_run_unfolds(
        FlowStateView::FetchingProfile { access_token: answer.access_token },
        third,
        later,
    );
    lemma_finished_is_final(later);
    assert(run(FlowStateView::AwaitingRequest, seq![first, second, third] + later) =~= seq![
        ActionView::ExchangeCode { code: code_of(query)->0 },
        ActionView::FetchProfile { access_token: answer.access_token },
        ActionView::Respond(server_error_reply(fetch_error_text(error))),
    ]);
}

/// Where the user is stored already, the login ends with the redirect and
/// no insert is asked for.
pub proof fn lemma_known_user_is_not_inserted(
    query: Seq<char>,
    answer: GithubResponseLoginView,
    profile: GithubResponseUserView,
    user: UserView,
    later: Seq<EventView>,
)
    requires
        code_of(query) is Some,
    ensures
        ({
            let actions = run(
                FlowStateView::AwaitingRequest,
                seq![
                    EventView::Request { query },
                    EventView::TokenReply(Ok(answer)),
                    EventView::ProfileReply(Ok(profile)),
                    EventView::UserLookup(Ok(Some(user))),
                ] + later,
            );
            &&& actions == seq![
                ActionView::ExchangeCode { code: code_of(query)->0 },
                ActionView::FetchProfile { access_token: answer.access_token },
                ActionView::FindUser { username: profile.login },
                ActionView::Respond(redirect_reply()),
            ]
            &&& forall|i: int| 0 <= i < actions.len() ==> !((#[trigger] actions[i]) is InsertUser)
        }),
{
    let first = EventView::Request { query };
    let second = EventView::TokenReply(Ok(answer));
    let third = EventView::ProfileReply(Ok(profile));
    let fourth = EventView::UserLookup(Ok(Some(user)));
    assert(seq![first, second, third, fourth] + later =~= seq![first] + (seq![second] + (seq![
        third,
    ] + (seq![fourth] + later))));
    lemma_run_unfolds(
        FlowStateView::AwaitingRequest,
        first,
        seq![second] + (seq![third] + (seq![fourth] + later)),
    );
    lemma_run_unfolds(FlowStateView::ExchangingCode, second, seq![third] + (seq![fourth] + later));
    lemma_run_unfolds(
        FlowStateView::FetchingProfile { access_token: answer.access_token },
        third,
        seq![fourth] + later,
    );
    lemma_run_unfolds(
        FlowStateView::LookingUpUser { candidate: candidate(answer.access_token, profile) },
        fourth,
        later,
    );
    lemma_finished_is_final(later);
    let events = seq![first, second, third, fourth] + later;
    assert(run(FlowStateView::AwaitingRequest, events) =~= seq![
        ActionView::ExchangeCode { code: code_of(query)->0 },
        ActionView::FetchProfile { access_token: answer.access_token },
        ActionView::FindUser { username: profile.login },
        ActionView::Respond(redirect_reply()),
    ]);
}

/// Where the user is not stored yet, the login asks for the insert of the
/// provider's login name and avatar with the access token, and ends with
/// the redirect once the store has answered: with the stored user, or
/// with the report that another login stored it first.
pub proof fn lemma_new_user_is_inserted(
    query: Seq<char>,
    answer: GithubResponseLoginView,
    profile: GithubResponseUserView,
    stored: Result<UserView, InsertErrorView>,
    later: Seq<EventView>,
)
    requires
        code_of(query) is Some,
        stored is Ok || stored matches Err(InsertErrorView::UniqueViolation),
    ensures
        run(
            FlowStateView::AwaitingRequest,
            seq![
                EventView::Request { query },
                EventView::TokenReply(Ok(answer)),
                EventView::ProfileReply(Ok(profile)),
                EventView::UserLookup(Ok(None)),
                EventView::UserInsert(stored),
            ] + later,
        ) == seq![
            ActionView::ExchangeCode { code: code_of(query)->0 },
            ActionView::FetchProfile { access_token: answer.access_token },
            ActionView::FindUser { username: profile.login },
            ActionView::InsertUser(candidate(answer.access_token, profile)),
            ActionView::Respond(redirect_reply()),
        ],
{
    let first = EventView::Request { query };
    let second = EventView::TokenReply(Ok(answer));
    let third = EventView::ProfileReply(Ok(profile));
    let fourth = EventView::UserLookup(Ok(None));
    let fifth = EventView::UserInsert(stored);
    assert(seq![first, second, third, fourth, fifth] + later =~= seq![first] + (seq![second] + (
    seq![third] + (seq![fourth] + (seq![fifth] + later)))));
    lemma_run_unfolds(
        FlowStateView::AwaitingRequest,
        first,
        seq![second] + (seq![third] + (seq![fourth] + (seq![fifth] + later))),
    );
    lemma_run_unfolds(
        FlowStateView::ExchangingCode,
        second,
        seq![third] + (seq![fourth] + (seq![fifth] + later)),
    );
    lemma_run_unfolds(
        FlowStateView::FetchingProfile { access_token: answer.access_token },
        third,
        seq![fourth] + (seq![fifth] + later),
    );
    lemma_run_unfolds(
        FlowStateView::LookingUpUser { candidate: candidate(answer.access_token, profile) },
        fourth,
        seq![fifth] + later,
    );
    lemma_run_unfolds(FlowStateView::InsertingUser, fifth, later);
    lemma_finished_is_final(later);
    assert(run(FlowStateView::AwaitingRequest, seq![first, second, third, fourth, fifth] + later)
        =~= seq![
        ActionView::ExchangeCode { code: code_of(query)->0 },
        ActionView::FetchProfile { access_token: answer.access_token },
        ActionView::FindUser { username: profile.login },
        ActionView::InsertUser(candidate(answer.access_token, profile)),
        ActionView::Respond(redirect_reply()),
    ]);
}

/// The redirect is given only on the store's word that the user is
/// stored: the lookup found it, the insert stored it, or the insert met
/// the row that another login had stored.
pub proof fn lemma_redirect_means_stored(state: FlowStateView, event: EventView)
    requires
        next(state, event) matches Some((_, action)) && action == ActionView::Respond(
            redirect_reply(),
        ),
    ensures
        (state is LookingUpUser && event matches EventView::UserLookup(Ok(Some(_)))) || (state
            is InsertingUser && (event matches EventView::UserInsert(Ok(_)) || event
            == EventView::UserInsert(Err(InsertErrorView::UniqueViolation)))),
{
}

} // verus!
