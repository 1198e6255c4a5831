use backend::flow::{step, Action, Event, FlowState};
use backend::handler::github_oauth;
use backend::http::{bad_request, redirect_to_profile, server_error, Header, HttpReply};
use backend::provider::{
    profile_request, token_request, ExchangeError, FetchError, GithubResponseLogin,
    GithubResponseUser,
};
use backend::table::UserTable;
use backend::users::{InsertError, NewUser, RepoError, User};

fn tok1() -> Result<GithubResponseLogin, ExchangeError> {
    Ok(GithubResponseLogin {
        access_token: "tok1".to_string(),
        scope: String::new(),
        token_type: "bearer".to_string(),
    })
}

fn alice() -> Result<GithubResponseUser, FetchError> {
    Ok(GithubResponseUser { login: "alice".to_string(), avatar_url: "http://x/a.png".to_string() })
}

fn alice_row() -> User {
    User {
        id: 1,
        username: "alice".to_string(),
        access_token_github: "tok1".to_string(),
        profile_picture_url: "http://x/a.png".to_string(),
    }
}

fn redirect() -> HttpReply {
    HttpReply {
        status: 308,
        headers: vec![Header {
            name: "Location".to_string(),
            value: "http://localhost:5173/profile".to_string(),
        }],
        body: String::new(),
    }
}

/// Drives one login by hand: the provider answers as given, the table
/// answers the lookup and the insert. Returns every action asked for.
fn drive(
    table: &mut UserTable,
    query: &str,
    mut exchange: Option<Result<GithubResponseLogin, ExchangeError>>,
    mut fetch: Option<Result<GithubResponseUser, FetchError>>,
) -> Vec<Action> {
    let mut actions = Vec::new();
    let mut state = FlowState::AwaitingRequest;
    let mut event = Event::Request { query: query.to_string() };
    loop {
        let (next, action) = step(state, event).expect("the event is the awaited one");
        state = next;
        event = match &action {
            Action::ExchangeCode { .. } => Event::TokenReply(exchange.take().unwrap()),
            Action::FetchProfile { .. } => Event::ProfileReply(fetch.take().unwrap()),
            Action::FindUser { username } => Event::UserLookup(Ok(table.find(username))),
            Action::InsertUser(user) => Event::UserInsert(table.insert(NewUser {
                username: user.username.clone(),
                access_token_github: user.access_token_github.clone(),
                profile_picture_url: user.profile_picture_url.clone(),
            })),
            Action::Respond(_) => {
                actions.push(action);
                assert_eq!(state, FlowState::Finished);
                return actions;
            }
        };
        actions.push(action);
    }
}

#[test]
fn first_login_stores_the_user_and_redirects() {
    let mut table = UserTable::new();
    let reply = github_oauth(&mut table, "code=abc123", tok1(), alice());
    assert_eq!(reply, redirect());
    assert_eq!(table.rows(), &vec![alice_row()]);
}

#[test]
fn first_login_step_by_step() {
    let mut table = UserTable::new();
    let actions = drive(&mut table, "code=abc123", Some(tok1()), Some(alice()));
    assert_eq!(
        actions,
        vec![
            Action::ExchangeCode { code: "abc123".to_string() },
            Action::FetchProfile { access_token: "tok1".to_string() },
            Action::FindUser { username: "alice".to_string() },
            Action::InsertUser(NewUser {
                username: "alice".to_string(),
                access_token_github: "tok1".to_string(),
                profile_picture_url: "http://x/a.png".to_string(),
            }),
            Action::Respond(redirect()),
        ]
    );
    assert_eq!(table.rows(), &vec![alice_row()]);
}

#[test]
fn first_login_sends_these_requests() {
    let mut table = UserTable::new();
    let actions = drive(&mut table, "code=abc123", Some(tok1()), Some(alice()));
    match &actions[0] {
        Action::ExchangeCode { code } => assert_eq!(
            token_request("id", "secret", code).url,
            "https://github.com/login/oauth/access_token?client_id=id&client_secret=secret&code=abc123"
        ),
        other => panic!("no exchange: {:?}", other),
    }
    match &actions[1] {
        Action::FetchProfile { access_token } => {
            assert_eq!(profile_request(access_token).headers[1].value, "Bearer tok1")
        }
        other => panic!("no fetch: {:?}", other),
    }
}

#[test]
fn login_of_a_stored_user_inserts_nothing_and_redirects() {
    let mut table = UserTable::new();
    assert_eq!(table.ensure_user("alice", "tok0", "http://x/old.png"), Ok(()));
    let reply = github_oauth(&mut table, "code=abc123", tok1(), alice());
    assert_eq!(reply.status, 308);
    assert_eq!(reply, redirect_to_profile());
    assert_eq!(table.rows().len(), 1);
    assert_eq!(table.rows()[0].access_token_github, "tok0");
    assert_eq!(table.rows()[0].profile_picture_url, "http://x/old.png");
}

#[test]
fn login_of_a_stored_user_step_by_step() {
    let mut table = UserTable::new();
    assert_eq!(table.ensure_user("alice", "tok1", "http://x/a.png"), Ok(()));
    let actions = drive(&mut table, "code=abc123", Some(tok1()), Some(alice()));
    assert_eq!(
        actions,
        vec![
            Action::ExchangeCode { code: "abc123".to_string() },
            Action::FetchProfile { access_token: "tok1".to_string() },
            Action::FindUser { username: "alice".to_string() },
            Action::Respond(redirect()),
        ]
    );
    assert_eq!(table.rows(), &vec![alice_row()]);
}

#[test]
fn request_without_code_calls_nobody() {
    let mut table = UserTable::new();
    let actions = drive(&mut table, "state=xyz", None, None);
    assert_eq!(actions, vec![Action::Respond(bad_request())]);
    assert!(table.rows().is_empty());
}

#[test]
fn request_without_code_gets_400() {
    let mut table = UserTable::new();
    let reply = github_oauth(&mut table, "", tok1(), alice());
    assert_eq!(reply, HttpReply { status: 400, headers: vec![], body: String::new() });
    assert!(table.rows().is_empty());
}

#[test]
fn failed_exchange_gets_500_and_fetches_no_profile() {
    let mut table = UserTable::new();
    let failure = Err(ExchangeError::Network("connection refused".to_string()));
    let actions = drive(&mut table, "code=abc123", Some(failure), None);
    assert_eq!(
        actions,
        vec![
            Action::ExchangeCode { code: "abc123".to_string() },
            Action::Respond(HttpReply {
                status: 500,
                headers: vec![],
                body: "{\"error\":\"connection refused\"}".to_string(),
            }),
        ]
    );
    assert!(table.rows().is_empty());
}

#[test]
fn malformed_token_answer_gets_500() {
    let mut table = UserTable::new();
    let failure = Err(ExchangeError::Decode("expected value at line 1 column 1".to_string()));
    let reply = github_oauth(&mut table, "code=abc123", failure, alice());
    assert_eq!(reply, server_error("expected value at line 1 column 1"));
    assert!(table.rows().is_empty());
}

#[test]
fn failed_fetch_gets_500_and_writes_nothing() {
    let mut table = UserTable::new();
    let failure = Err(FetchError::Network("reset by peer".to_string()));
    let actions = drive(&mut table, "code=abc123", Some(tok1()), Some(failure));
    assert_eq!(
        actions,
        vec![
            Action::ExchangeCode { code: "abc123".to_string() },
            Action::FetchProfile { access_token: "tok1".to_string() },
            Action::Respond(HttpReply {
                status: 500,
                headers: vec![],
                body: "{\"error\":\"Failed to get user info from github\"}".to_string(),
            }),
        ]
    );
    assert!(table.rows().is_empty());
}

#[test]
fn malformed_profile_gets_500() {
    let mut table = UserTable::new();
    let failure = Err(FetchError::Decode("missing field `login`".to_string()));
    let reply = github_oauth(&mut table, "code=abc123", tok1(), failure);
    assert_eq!(reply, server_error("missing field `login`"));
    assert!(table.rows().is_empty());
}

#[test]
fn many_logins_of_one_identity_keep_one_row() {
    let mut table = UserTable::new();
    for turn in 0..5 {
        let exchange = Ok(GithubResponseLogin {
            access_token: format!("tok{}", turn),
            scope: String::new(),
            token_type: "bearer".to_string(),
        });
        let reply = github_oauth(&mut table, "code=abc123", exchange, alice());
        assert_eq!(reply.status, 308);
    }
    assert_eq!(table.rows().len(), 1);
    assert_eq!(table.rows()[0].username, "alice");
    assert_eq!(table.rows()[0].access_token_github, "tok0");
}

#[test]
fn racing_first_logins_store_one_row_and_both_redirect() {
    let mut table = UserTable::new();
    let candidate = |token: &str| NewUser {
        username: "alice".to_string(),
        access_token_github: token.to_string(),
        profile_picture_url: "http://x/a.png".to_string(),
    };
    let one = step(
        FlowState::LookingUpUser { candidate: candidate("tok1") },
        Event::UserLookup(Ok(table.find("alice"))),
    );
    let two = step(
        FlowState::LookingUpUser { candidate: candidate("tok2") },
        Event::UserLookup(Ok(table.find("alice"))),
    );
    let (state_one, user_one) = match one {
        Some((state, Action::InsertUser(user))) => (state, user),
        other => panic!("no insert: {:?}", other),
    };
    let (state_two, user_two) = match two {
        Some((state, Action::InsertUser(user))) => (state, user),
        other => panic!("no insert: {:?}", other),
    };
    let stored_one = table.insert(user_one);
    let stored_two = table.insert(user_two);
    assert_eq!(stored_two, Err(InsertError::UniqueViolation));
    assert_eq!(
        step(state_one, Event::UserInsert(stored_one)),
        Some((FlowState::Finished, Action::Respond(redirect())))
    );
    assert_eq!(
        step(state_two, Event::UserInsert(stored_two)),
        Some((FlowState::Finished, Action::Respond(redirect())))
    );
    assert_eq!(table.rows(), &vec![alice_row()]);
}

#[test]
fn storage_failure_gets_500() {
    let lookup = step(
        FlowState::LookingUpUser {
            candidate: NewUser {
                username: "alice".to_string(),
                access_token_github: "tok1".to_string(),
                profile_picture_url: "http://x/a.png".to_string(),
            },
        },
        Event::UserLookup(Err(RepoError::Connection("timed out waiting for connection".to_string()))),
    );
    assert_eq!(
        lookup,
        Some((
            FlowState::Finished,
            Action::Respond(HttpReply {
                status: 500,
                headers: vec![],
                body: "{\"error\":\"timed out waiting for connection\"}".to_string(),
            })
        ))
    );
}
