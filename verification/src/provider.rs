//! The two calls to the identity provider: what is sent, what comes back,
//! and how a failed call is reported.

use crate::http::{header_views, Header, HeaderView, Method, OutboundRequest, OutboundRequestView};
use vstd::prelude::*;
use vstd::string::StringExecFns;

verus! {

/// The provider's answer to a code exchange.
#[derive(Debug, PartialEq, Eq)]
pub struct GithubResponseLogin {
    pub access_token: String,
    pub scope: String,
    pub token_type: String,
}

/// Mathematical value of a [`GithubResponseLogin`].
pub struct GithubResponseLoginView {
    pub access_token: Seq<char>,
    pub scope: Seq<char>,
    pub token_type: Seq<char>,
}

impl View for GithubResponseLogin {
    type V = GithubResponseLoginView;

    open spec fn view(&self) -> GithubResponseLoginView {
        GithubResponseLoginView {
            access_token: self.access_token@,
            scope: self.scope@,
            token_type: self.token_type@,
        }
    }
}

/// The provider's description of the user behind an access token.
#[derive(Debug, PartialEq, Eq)]
pub struct GithubResponseUser {
    pub login: String,
    pub avatar_url: String,
}

/// Mathematical value of a [`GithubResponseUser`].
pub struct GithubResponseUserView {
    pub login: Seq<char>,
    pub avatar_url: Seq<char>,
}

impl View for GithubResponseUser {
    type V = GithubResponseUserView;

    open spec fn view(&self) -> GithubResponseUserView {
        GithubResponseUserView { login: self.login@, avatar_url: self.avatar_url@ }
    }
}

/// Why a code exchange gave no access token.
#[derive(Debug, PartialEq, Eq)]
pub enum ExchangeError {
    /// The request could not be sent, or the transport failed.
    Network(String),
    /// The answer is not a token response.
    Decode(String),
}

/// Mathematical value of an [`ExchangeError`].
pub enum ExchangeErrorView {
    Network(Seq<char>),
    Decode(Seq<char>),
}

impl View for ExchangeError {
    type V = ExchangeErrorView;

    open spec fn view(&self) -> ExchangeErrorView {
        match self {
            ExchangeError::Network(message) => ExchangeErrorView::Network(message@),
            ExchangeError::Decode(message) => ExchangeErrorView::Decode(message@),
        }
    }
}

/// Why a profile fetch gave no profile.
#[derive(Debug, PartialEq, Eq)]
pub enum FetchError {
    /// The request could not be sent, or the transport failed.
    Network(String),
    /// The answer is not a profile.
    Decode(String),
}

/// Mathematical value of a [`FetchError`].
pub enum FetchErrorView {
    Network(Seq<char>),
    Decode(Seq<char>),
}

impl View for FetchError {
    type V = FetchErrorView;

    open spec fn view(&self) -> FetchErrorView {
        match self {
            FetchError::Network(message) => FetchErrorView::Network(message@),
            FetchError::Decode(message) => FetchErrorView::Decode(message@),
        }
    }
}

/// Mathematical value of what a code exchange answers.
pub open spec fn token_reply_view(reply: Result<GithubResponseLogin, ExchangeError>) -> Result<
    GithubResponseLoginView,
    ExchangeErrorView,
> {
    match reply {
        Ok(answer) => Ok(answer@),
        Err(error) => Err(error@),
    }
}

/// Mathematical value of what a profile fetch answers.
pub open spec fn profile_reply_view(reply: Result<GithubResponseUser, FetchError>) -> Result<
    GithubResponseUserView,
    FetchErrorView,
> {
    match reply {
        Ok(profile) => Ok(profile@),
        Err(error) => Err(error@),
    }
}

/// The message that reports a failed code exchange: the failure's own text.
pub open spec fn exchange_error_text(error: ExchangeErrorView) -> Seq<char> {
    match error {
        ExchangeErrorView::Network(message) => message,
        ExchangeErrorView::Decode(message) => message,
    }
}

/// The message that reports a failed profile fetch: a fixed sentence where
/// the transport failed, the failure's own text where the answer could not
/// be decoded.
pub open spec fn fetch_error_text(error: FetchErrorView) -> Seq<char> {
    match error {
        FetchErrorView::Network(_) => "Failed to get user info from github"@,
        FetchErrorView::Decode(message) => message,
    }
}

impl ExchangeError {
    /// The message that reports this failure.
    pub fn message(self) -> (text: String)
        ensures
            text@ == exchange_error_text(self@),
    {
        match self {
            ExchangeError::Network(message) => message,
            ExchangeError::Decode(message) => message,
        }
    }
}

impl FetchError {
    /// The message that reports this failure.
    pub fn message(self) -> (text: String)
        ensures
            text@ == fetch_error_text(self@),
    {
        match self {
            FetchError::Network(_) => "Failed to get user info from github".to_owned(),
            FetchError::Decode(message) => message,
        }
    }
}

/// The address of the code exchange: the provider's token endpoint with
/// the client's credentials and the code as query parameters, each put in
/// as it is.
pub open spec fn token_url(client_id: Seq<char>, client_secret: Seq<char>, code: Seq<char>) -> Seq<
    char,
> {
    "https://github.com/login/oauth/access_token?client_id="@ + client_id + "&client_secret="@
        + client_secret + "&code="@ + code
}

/// The request that trades an authorization code for an access token: a
/// POST to the token endpoint that asks for a JSON answer.
pub open spec fn token_request_view(
    client_id: Seq<char>,
    client_secret: Seq<char>,
    code: Seq<char>,
) -> OutboundRequestView {
    OutboundRequestView {
        method: Method::Post,
        url: token_url(client_id, client_secret, code),
        headers: seq![HeaderView { name: "Accept"@, value: "application/json"@ }],
    }
}

/// The value of the header that authenticates with a bearer token.
pub open spec fn bearer(access_token: Seq<char>) -> Seq<char> {
    "Bearer "@ + access_token
}

/// The request that fetches the profile behind an access token: a GET to
/// the user endpoint that names the client and authenticates with the
/// token.
pub open spec fn profile_request_view(access_token: Seq<char>) -> OutboundRequestView {
    OutboundRequestView {
        method: Method::Get,
        url: "https://api.github.com/user"@,
        headers: seq![
            HeaderView { name: "User-Agent"@, value: "awc"@ },
            HeaderView { name: "Authorization"@, value: bearer(access_token) },
        ],
    }
}

/// Builds the code exchange request.
pub fn token_request(client_id: &str, client_secret: &str, code: &str) -> (request:
    OutboundRequest)
    ensures
        request@ == token_request_view(client_id@, client_secret@, code@),
{
    let mut url = String::from_str("https://github.com/login/oauth/access_token?client_id=");
    url.append(client_id);
    url.append("&client_secret=");
    url.append(client_secret);
    url.append("&code=");
    url.append(code);
    let mut headers: Vec<Header> = Vec::new();
    headers.push(Header::new("Accept", "application/json"));
    let request = OutboundRequest { method: Method::Post, url, headers };
    assert(header_views(request.headers@) =~= seq![
        HeaderView { name: "Accept"@, value: "application/json"@ },
    ]);
    request
}

/// Builds the profile request.
pub fn profile_request(access_token: &str) -> (request: OutboundRequest)
    ensures
        request@ == profile_request_view(access_token@),
{
    let mut authorization = String::from_str("Bearer ");
    authorization.append(access_token);
    let mut headers: Vec<Header> = Vec::new();
    headers.push(Header::new("User-Agent", "awc"));
    headers.push(Header::new("Authorization", authorization.as_str()));
    let request = OutboundRequest {
        method: Method::Get,
        url: "https://api.github.com/user".to_owned(),
        headers,
    };
    assert(header_views(request.headers@) =~= seq![
        HeaderView { name: "User-Agent"@, value: "awc"@ },
        HeaderView { name: "Authorization"@, value: bearer(access_token@) },
    ]);
    request
}

} // verus!
