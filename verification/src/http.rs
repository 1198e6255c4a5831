//! Plain descriptions of HTTP messages: the requests the login flow asks to
//! be sent and the replies it gives to its own callers.

use crate::json::{error_body, error_body_text};
use vstd::prelude::*;

verus! {

/// One header line of an HTTP message.
#[derive(Debug, PartialEq, Eq)]
pub struct Header {
    pub name: String,
    pub value: String,
}

/// Mathematical value of a [`Header`].
pub struct HeaderView {
    pub name: Seq<char>,
    pub value: Seq<char>,
}

impl View for Header {
    type V = HeaderView;

    open spec fn view(&self) -> HeaderView {
        HeaderView { name: self.name@, value: self.value@ }
    }
}

/// The header lines of a message, in order, as mathematical values.
pub open spec fn header_views(headers: Seq<Header>) -> Seq<HeaderView> {
    headers.map_values(|h: Header| h@)
}

impl Header {
    /// Builds a header line from its two parts.
    pub fn new(name: &str, value: &str) -> (header: Header)
        ensures
            header@ == (HeaderView { name: name@, value: value@ }),
    {
        Header { name: name.to_owned(), value: value.to_owned() }
    }
}

/// The request methods the flow uses.
#[derive(Clone, Copy, Debug, PartialEq, Eq, Structural)]
pub enum Method {
    Get,
    Post,
}

/// A request that the flow asks to be sent to the identity provider.
#[derive(Debug, PartialEq, Eq)]
pub struct OutboundRequest {
    pub method: Method,
    pub url: String,
    pub headers: Vec<Header>,
}

/// Mathematical value of an [`OutboundRequest`].
pub struct OutboundRequestView {
    pub method: Method,
    pub url: Seq<char>,
    pub headers: Seq<HeaderView>,
}

impl View for OutboundRequest {
    type V = OutboundRequestView;

    open spec fn view(&self) -> OutboundRequestView {
        OutboundRequestView {
            method: self.method,
            url: self.url@,
            headers: header_views(self.headers@),
        }
    }
}

/// The reply that the flow gives to the caller that logged in.
#[derive(Debug, PartialEq, Eq)]
pub struct HttpReply {
    pub status: u16,
    pub headers: Vec<Header>,
    pub body: String,
}

/// Mathematical value of an [`HttpReply`].
pub struct HttpReplyView {
    pub status: u16,
    pub headers: Seq<HeaderView>,
    pub body: Seq<char>,
}

impl View for HttpReply {
    type V = HttpReplyView;

    open spec fn view(&self) -> HttpReplyView {
        HttpReplyView {
            status: self.status,
            headers: header_views(self.headers@),
            body: self.body@,
        }
    }
}

/// Status of the greeting.
pub const STATUS_OK: u16 = 200;

/// Status of the redirect that ends a login.
pub const STATUS_PERMANENT_REDIRECT: u16 = 308;

/// Status of the reply to a request without an authorization code.
pub const STATUS_BAD_REQUEST: u16 = 400;

/// Status of the reply to a login that failed downstream.
pub const STATUS_INTERNAL_SERVER_ERROR: u16 = 500;

/// Where a caller is sent once logged in.
pub open spec fn profile_url() -> Seq<char> {
    "http://localhost:5173/profile"@
}

/// The greeting: status 200 with the body `Hello world!`.
pub open spec fn hello_reply() -> HttpReplyView {
    HttpReplyView { status: STATUS_OK, headers: Seq::empty(), body: "Hello world!"@ }
}

/// The reply to a request without an authorization code: status 400, no
/// header and no body.
pub open spec fn bad_request_reply() -> HttpReplyView {
    HttpReplyView { status: STATUS_BAD_REQUEST, headers: Seq::empty(), body: Seq::empty() }
}

/// The reply to a login that failed downstream: status 500 and a JSON body
/// that carries the message.
pub open spec fn server_error_reply(message: Seq<char>) -> HttpReplyView {
    HttpReplyView {
        status: STATUS_INTERNAL_SERVER_ERROR,
        headers: Seq::empty(),
        body: error_body_text(message),
    }
}

/// The reply to a login that succeeded: status 308, a `Location` header
/// with the profile page, and no body.
pub open spec fn redirect_reply() -> HttpReplyView {
    HttpReplyView {
        status: STATUS_PERMANENT_REDIRECT,
        headers: seq![HeaderView { name: "Location"@, value: profile_url() }],
        body: Seq::empty(),
    }
}

/// Answers the greeting route.
pub fn hello() -> (reply: HttpReply)
    ensures
        reply@ == hello_reply(),
{
    let reply = HttpReply {
        status: STATUS_OK,
        headers: Vec::new(),
        body: "Hello world!".to_owned(),
    };
    assert(header_views(reply.headers@) =~= Seq::empty());
    reply
}

/// Rejects a request that carries no authorization code.
pub fn bad_request() -> (reply: HttpReply)
    ensures
        reply@ == bad_request_reply(),
{
    let reply = HttpReply { status: STATUS_BAD_REQUEST, headers: Vec::new(), body: String::new() };
    assert(header_views(reply.headers@) =~= Seq::empty());
    reply
}

/// Reports a downstream failure with its message.
pub fn server_error(message: &str) -> (reply: HttpReply)
    ensures
        reply@ == server_error_reply(message@),
{
    let reply = HttpReply {
        status: STATUS_INTERNAL_SERVER_ERROR,
        headers: Vec::new(),
        body: error_body(message),
    };
    assert(header_views(reply.headers@) =~= Seq::empty());
    reply
}

/// Sends the caller to the profile page.
pub fn redirect_to_profile() -> (reply: HttpReply)
    ensures
        reply@ == redirect_reply(),
{
    let mut headers: Vec<Header> = Vec::new();
    headers.push(Header::new("Location", "http://localhost:5173/profile"));
    let reply = HttpReply { status: STATUS_PERMANENT_REDIRECT, headers, body: String::new() };
    assert(header_views(reply.headers@) =~= seq![
        HeaderView { name: "Location"@, value: profile_url() },
    ]);
    reply
}

} // verus!
