//! What holds of whole logins and of the table of users that they leave.

use crate::http::{bad_request_reply, redirect_reply, STATUS_PERMANENT_REDIRECT};
use crate::model::{
    after_insert, after_lookup, candidate, login_result, succeed, ActionView, FlowStateView,
};
use crate::provider::{
    ExchangeErrorView, FetchErrorView, GithubResponseLoginView, GithubResponseUserView,
};
use crate::table::{
    ensure_all, find_user, has_user, insert_result, lemma_ensure_again, lemma_ensure_all_keeps,
    lemma_ensure_keeps_users, lemma_ensure_keeps_valid, lemma_ensure_stores_once,
    lemma_find_user, lemma_insert_keeps_valid, lemma_occurrences_zero, lemma_stored_once,
    occurrences, valid_rows,
};
use crate::users::{NewUserView, UserView};
use vstd::prelude::*;

verus! {

/// One login as its inputs: the code of the request, if it carries one,
/// and what the provider answers to the code exchange and to the profile
/// fetch.
pub struct LoginAttempt {
    pub code: Option<Seq<char>>,
    pub exchange: Result<GithubResponseLoginView, ExchangeErrorView>,
    pub fetch: Result<GithubResponseUserView, FetchErrorView>,
}

/// The table after a series of logins, each made on what the ones before
/// it left.
pub open spec fn after_logins(rows: Seq<UserView>, attempts: Seq<LoginAttempt>) -> Seq<UserView>
    decreases attempts.len(),
{
    if attempts.len() == 0 {
        rows
    } else {
        let last = attempts.last();
        login_result(
            after_logins(rows, attempts.drop_last()),
            last.code,
            last.exchange,
            last.fetch,
        ).0
    }
}

/// A request without a code is answered with 400, and the table is left
/// as it was.
pub proof fn lemma_login_without_code(
    rows: Seq<UserView>,
    exchange: Result<GithubResponseLoginView, ExchangeErrorView>,
    fetch: Result<GithubResponseUserView, FetchErrorView>,
)
    ensures
        login_result(rows, None, exchange, fetch) == (rows, bad_request_reply()),
{
}

/// A login that is not answered with the redirect stores nothing.
pub proof fn lemma_failed_login_stores_nothing(
    rows: Seq<UserView>,
    code: Option<Seq<char>>,
    exchange: Result<GithubResponseLoginView, ExchangeErrorView>,
    fetch: Result<GithubResponseUserView, FetchErrorView>,
)
    requires
        login_result(rows, code, exchange, fetch).1 != redirect_reply(),
    ensures
        login_result(rows, code, exchange, fetch).0 == rows,
{
}

/// A login removes no row and leaves a valid table valid.
pub proof fn lemma_login_keeps(
    rows: Seq<UserView>,
    code: Option<Seq<char>>,
    exchange: Result<GithubResponseLoginView, ExchangeErrorView>,
    fetch: Result<GithubResponseUserView, FetchErrorView>,
    username: Seq<char>,
)
    requires
        valid_rows(rows),
    ensures
        valid_rows(login_result(rows, code, exchange, fetch).0),
        has_user(rows, username) ==> has_user(
            login_result(rows, code, exchange, fetch).0,
            username,
        ),
{
    if let (Some(_), Ok(answer), Ok(profile)) = (code, exchange, fetch) {
        let user = candidate(answer.access_token, profile);
        lemma_ensure_keeps_valid(rows, user);
        if has_user(rows, username) {
            lemma_ensure_keeps_users(rows, user, username);
        }
    }
}

/// After a login that is answered with the redirect, exactly one row has
/// the login name that the provider gave, whether the user was stored
/// before or not.
pub proof fn lemma_successful_login_stores_once(
    rows: Seq<UserView>,
    code: Option<Seq<char>>,
    exchange: Result<GithubResponseLoginView, ExchangeErrorView>,
    fetch: Result<GithubResponseUserView, FetchErrorView>,
)
    requires
        valid_rows(rows),
        login_result(rows, code, exchange, fetch).1.status == STATUS_PERMANENT_REDIRECT,
    ensures
        login_result(rows, code, exchange, fetch).1 == redirect_reply(),
        fetch matches Ok(profile) && occurrences(
            login_result(rows, code, exchange, fetch).0,
            profile.login,
        ) == 1,
{
    if let (Some(_), Ok(answer), Ok(profile)) = (code, exchange, fetch) {
        lemma_ensure_stores_once(rows, candidate(answer.access_token, profile));
    }
}

/// The login of a user that is stored already is answered with the
/// redirect and leaves the table as it was: nothing is inserted, and the
/// stored token and avatar stay.
pub proof fn lemma_known_user_login(
    rows: Seq<UserView>,
    code: Seq<char>,
    answer: GithubResponseLoginView,
    profile: GithubResponseUserView,
)
    requires
        has_user(rows, profile.login),
    ensures
        login_result(rows, Some(code), Ok(answer), Ok(profile)) == (rows, redirect_reply()),
{
}

/// A second login of the same identity after a first that was answered
/// with the redirect is answered with the redirect and changes nothing,
/// whatever code and token it brings.
pub proof fn lemma_repeated_login(
    rows: Seq<UserView>,
    first: LoginAttempt,
    second: LoginAttempt,
)
    requires
        login_result(rows, first.code, first.exchange, first.fetch).1 == redirect_reply(),
        second.code is Some,
        second.exchange is Ok,
        first.fetch matches Ok(one) && second.fetch matches Ok(two) && one.login == two.login,
    ensures
        login_result(
            login_result(rows, first.code, first.exchange, first.fetch).0,
            second.code,
            second.exchange,
            second.fetch,
        ) == (login_result(rows, first.code, first.exchange, first.fetch).0, redirect_reply()),
{
    if let (Some(_), Ok(answer), Ok(profile)) = (first.code, first.exchange, first.fetch) {
        lemma_ensure_again(
            rows,
            candidate(answer.access_token, profile),
            candidate(second.exchange->Ok_0.access_token, second.fetch->Ok_0),
        );
    }
}

/// Any series of logins leaves a valid table valid and keeps every
/// username that it held.
pub proof fn lemma_logins_keep(
    rows: Seq<UserView>,
    attempts: Seq<LoginAttempt>,
    username: Seq<char>,
)
    requires
        valid_rows(rows),
    ensures
        valid_rows(after_logins(rows, attempts)),
        has_user(rows, username) ==> has_user(after_logins(rows, attempts), username),
    decreases attempts.len(),
{
    if attempts.len() > 0 {
        let last = attempts.last();
        lemma_logins_keep(rows, attempts.drop_last(), username);
        lemma_login_keeps(
            after_logins(rows, attempts.drop_last()),
            last.code,
            last.exchange,
            last.fetch,
            username,
        );
    }
}

/// However many logins are made, in whatever order, and however often
/// for the same identity: for each login that was answered with the
/// redirect, exactly one row has its login name at the end.
pub proof fn lemma_logins_store_each_user_once(
    rows: Seq<UserView>,
    attempts: Seq<LoginAttempt>,
    turn: int,
)
    requires
        valid_rows(rows),
        0 <= turn < attempts.len(),
        login_result(
            after_logins(rows, attempts.take(turn)),
            attempts[turn].code,
            attempts[turn].exchange,
            attempts[turn].fetch,
        ).1.status == STATUS_PERMANENT_REDIRECT,
    ensures
        valid_rows(after_logins(rows, attempts)),
        attempts[turn].fetch matches Ok(profile) && occurrences(
            after_logins(rows, attempts),
            profile.login,
        ) == 1,
    decreases attempts.len(),
{
    let front = attempts.drop_last();
    let before = after_logins(rows, front);
    let last = attempts.last();
    lemma_logins_keep(rows, front, Seq::empty());
    lemma_logins_keep(rows, attempts, Seq::empty());
    if turn == attempts.len() - 1 {
        assert(attempts.take(turn) =~= front);
        lemma_successful_login_stores_once(before, last.code, last.exchange, last.fetch);
    } else {
        assert(front.take(turn) =~= attempts.take(turn));
        lemma_logins_store_each_user_once(rows, front, turn);
        let username = attempts[turn].fetch->Ok_0.login;
        lemma_occurrences_zero(before, username);
        lemma_login_keeps(before, last.code, last.exchange, last.fetch, username);
        lemma_stored_once(after_logins(rows, attempts), username);
    }
}

/// Two first logins of the same identity that race: both look the user up
/// before either has stored it, so both ask for the insert. The store
/// keeps usernames unique, so the second insert finds the row of the
/// first. Both logins are answered with the redirect, and exactly one row
/// has the username.
pub proof fn lemma_racing_logins_store_once(
    rows: Seq<UserView>,
    first: NewUserView,
    second: NewUserView,
)
    requires
        valid_rows(rows),
        first.username == second.username,
        !has_user(rows, first.username),
        rows.len() < i32::MAX,
    ensures
        ({
            let (between, one) = insert_result(rows, first);
            let (after, two) = insert_result(between, second);
            &&& after_lookup(first, Ok(find_user(rows, first.username))) == (
                FlowStateView::InsertingUser,
                ActionView::InsertUser(first),
            )
            &&& after_lookup(second, Ok(find_user(rows, second.username))) == (
                FlowStateView::InsertingUser,
                ActionView::InsertUser(second),
            )
            &&& after_insert(one) == succeed()
            &&& after_insert(two) == succeed()
            &&& valid_rows(after)
            &&& occurrences(after, first.username) == 1
        }),
{
    let (between, one) = insert_result(rows, first);
    let (after, two) = insert_result(between, second);
    lemma_find_user(rows, first.username);
    lemma_insert_keeps_valid(rows, first);
    assert(between[rows.len() as int].username == second.username);
    lemma_stored_once(after, first.username);
}

/// A lookup that has gone stale does no harm. A login looked its user up
/// and found none; before it inserts, other logins store whatever users
/// they store. The insert then leaves a valid table, stores nothing where
/// it fails, and wherever the login is answered with the redirect, exactly
/// one row has the username.
pub proof fn lemma_stale_lookup_is_harmless(
    rows: Seq<UserView>,
    others: Seq<NewUserView>,
    user: NewUserView,
)
    requires
        valid_rows(rows),
        find_user(rows, user.username) is None,
    ensures
        ({
            let between = ensure_all(rows, others);
            let (after, answer) = insert_result(between, user);
            &&& after_lookup(user, Ok(find_user(rows, user.username))) == (
                FlowStateView::InsertingUser,
                ActionView::InsertUser(user),
            )
            &&& valid_rows(after)
            &&& after_insert(answer) == succeed() ==> occurrences(after, user.username) == 1
            &&& after_insert(answer) != succeed() ==> after == between
        }),
{
    let between = ensure_all(rows, others);
    let (after, answer) = insert_result(between, user);
    lemma_ensure_all_keeps(rows, others, user.username);
    lemma_insert_keeps_valid(between, user);
    if after_insert(answer) == succeed() {
        if !has_user(between, user.username) {
            assert(after[between.len() as int].username == user.username);
        }
        lemma_stored_once(after, user.username);
    }
}

} // verus!
