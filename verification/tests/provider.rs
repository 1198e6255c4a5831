use backend::http::{Header, Method, OutboundRequest};
use backend::provider::{
    profile_request, token_request, ExchangeError, FetchError, GithubResponseLogin,
    GithubResponseUser,
};

#[test]
fn token_request_posts_credentials_and_code() {
    let request = token_request("my-id", "my-secret", "abc123");
    assert_eq!(
        request,
        OutboundRequest {
            method: Method::Post,
            url: "https://github.com/login/oauth/access_token?client_id=my-id&client_secret=my-secret&code=abc123"
                .to_string(),
            headers: vec![Header {
                name: "Accept".to_string(),
                value: "application/json".to_string(),
            }],
        }
    );
}

#[test]
fn token_request_puts_its_parts_in_as_they_are() {
    let request = token_request("", "s&t", "a b");
    assert_eq!(
        request.url,
        "https://github.com/login/oauth/access_token?client_id=&client_secret=s&t&code=a b"
    );
}

#[test]
fn profile_request_names_the_client_and_bears_the_token() {
    let request = profile_request("tok1");
    assert_eq!(
        request,
        OutboundRequest {
            method: Method::Get,
            url: "https://api.github.com/user".to_string(),
            headers: vec![
                Header { name: "User-Agent".to_string(), value: "awc".to_string() },
                Header { name: "Authorization".to_string(), value: "Bearer tok1".to_string() },
            ],
        }
    );
}

#[test]
fn exchange_error_reports_its_own_text() {
    assert_eq!(ExchangeError::Network("timed out".to_string()).message(), "timed out");
    assert_eq!(ExchangeError::Decode("missing field".to_string()).message(), "missing field");
}

#[test]
fn fetch_error_reports_a_fixed_sentence_for_the_transport() {
    assert_eq!(
        FetchError::Network("timed out".to_string()).message(),
        "Failed to get user info from github"
    );
}

#[test]
fn fetch_error_reports_its_own_text_for_the_decoding() {
    assert_eq!(FetchError::Decode("missing field".to_string()).message(), "missing field");
}

#[test]
fn provider_answers_hold_their_fields() {
    let answer = GithubResponseLogin {
        access_token: "tok1".to_string(),
        scope: String::new(),
        token_type: "bearer".to_string(),
    };
    assert_eq!(answer.access_token, "tok1");
    assert_eq!(answer.scope, "");
    assert_eq!(answer.token_type, "bearer");
    let profile = GithubResponseUser {
        login: "alice".to_string(),
        avatar_url: "http://x/a.png".to_string(),
    };
    assert_eq!(profile.login, "alice");
    assert_eq!(profile.avatar_url, "http://x/a.png");
}
