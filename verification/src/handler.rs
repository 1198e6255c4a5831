//! A whole login on a table of users in memory: the flow is driven step
//! by step, the provider's answers are given, and the table answers the
//! lookup and the insert.

use crate::flow::{step, Action, Event, FlowState};
use crate::http::HttpReply;
use crate::model::login_result;
use crate::provider::{
    profile_reply_view, token_reply_view, ExchangeError, FetchError, GithubResponseLogin,
    GithubResponseUser,
};
use crate::query::code_of;
use crate::table::{lemma_find_user, valid_rows, UserTable};
use vstd::pervasive::unreached;
use vstd::prelude::*;
use vstd::string::is_ascii;

verus! {

/// Handles one callback request. `exchange` is what the provider answers
/// to the code exchange and `fetch` what it answers to the profile fetch;
/// each is used only if the login comes that far. The user is looked up
/// in `table` and stored there if it is missing.
///
/// The query string must be ASCII, as the query of a request line is.
pub fn github_oauth(
    table: &mut UserTable,
    query: &str,
    exchange: Result<GithubResponseLogin, ExchangeError>,
    fetch: Result<GithubResponseUser, FetchError>,
) -> (reply: HttpReply)
    requires
        is_ascii(query),
    ensures
        (final(table)@, reply@) == login_result(
            old(table)@,
            code_of(query@),
            token_reply_view(exchange),
            profile_reply_view(fetch),
        ),
        valid_rows(final(table)@),
{
    proof {
        use_type_invariant(&*table);
    }
    let request = Event::Request { query: query.to_owned() };
    let (state, action) = match step(FlowState::AwaitingRequest, request) {
        Some(next) => next,
        None => unreached(),
    };
    if let Action::Respond(reply) = action {
        return reply;
    }
    let (state, action) = match step(state, Event::TokenReply(exchange)) {
        Some(next) => next,
        None => unreached(),
    };
    if let Action::Respond(reply) = action {
        return reply;
    }
    let (state, action) = match step(state, Event::ProfileReply(fetch)) {
        Some(next) => next,
        None => unreached(),
    };
    let username = match action {
        Action::Respond(reply) => {
            return reply;
        },
        Action::FindUser { username } => username,
        _ => unreached(),
    };
    proof {
        lemma_find_user(table@, username@);
    }
    let found = table.find(username.as_str());
    let (state, action) = match step(state, Event::UserLookup(Ok(found))) {
        Some(next) => next,
        None => unreached(),
    };
    let user = match action {
        Action::Respond(reply) => {
            return reply;
        },
        Action::InsertUser(user) => user,
        _ => unreached(),
    };
    let stored = table.insert(user);
    match step(state, Event::UserInsert(stored)) {
        Some((_, Action::Respond(reply))) => reply,
        _ => unreached(),
    }
}

} // verus!
