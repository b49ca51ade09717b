//! Requests as the service reads them and responses as it writes them.
use vstd::prelude::*;
use crate::error::ErrorResponse;
use crate::model::{ApiKey, ApiKeyDeleteRequest, ApiKeyPostRequest, ApiKeyPostResponse, UrlDeleteRequest, UrlRequest};
use crate::store::{KeyRecord, key_records};

verus! {

/// The request methods the service tells apart.
#[derive(PartialEq, Eq, Structural, Clone, Copy)]
pub enum Method {
    Get,
    Post,
    Delete,
    Other,
}

/// Where a request goes, with its body read by the schema of that route.
/// A body that the schema refuses is kept as the reader's message.
pub enum Route {
    /// `/{id}`, with the request path.
    Lookup { path: String },
    /// `/new`.
    NewUrl { url_request: Result<UrlRequest, String> },
    /// `/delete`.
    DeleteUrl { delete_request: Result<UrlDeleteRequest, String> },
    /// `/key`, with the body read as a creation and as a deletion.
    Keys { create: Result<ApiKeyPostRequest, String>, remove: Result<ApiKeyDeleteRequest, String> },
}

/// A request: method, route and the value of its `x-api-key` header.
pub struct Request {
    pub method: Method,
    pub route: Route,
    pub api_key: Option<String>,
}

/// Fresh random tokens for the request, used where it creates something:
/// a short-URL id and an API key.
pub struct Tokens {
    pub url_id: String,
    pub api_key: String,
}

/// The body of a response.
#[derive(Debug)]
pub enum Body {
    Empty,
    Text(String),
    Keys(Vec<ApiKey>),
    NewKey(ApiKeyPostResponse),
    Error(ErrorResponse),
}

/// A response: status, `Location` and `server` headers, body.
#[derive(Debug)]
pub struct Response {
    pub status: u16,
    pub location: Option<String>,
    pub server: Option<String>,
    pub body: Body,
}

pub enum BodyView {
    Empty,
    Text(Seq<char>),
    Keys(Seq<KeyRecord>),
    NewKey(Seq<char>),
    /// Code, title and message of an error envelope.
    Error(u16, Seq<char>, Seq<char>),
}

pub struct ResponseView {
    pub status: u16,
    pub location: Option<Seq<char>>,
    pub server: Option<Seq<char>>,
    pub body: BodyView,
}

impl View for Body {
    type V = BodyView;

    open spec fn view(&self) -> BodyView {
        match self {
            Body::Empty => BodyView::Empty,
            Body::Text(t) => BodyView::Text(t@),
            Body::Keys(v) => BodyView::Keys(key_records(v@)),
            Body::NewKey(k) => BodyView::NewKey(k.key@),
            Body::Error(e) => BodyView::Error(e.code, e.error@, e.message@),
        }
    }
}

impl View for Response {
    type V = ResponseView;

    open spec fn view(&self) -> ResponseView {
        ResponseView {
            status: self.status,
            location: match self.location {
                Some(l) => Some(l@),
                None => None,
            },
            server: match self.server {
                Some(s) => Some(s@),
                None => None,
            },
            body: self.body@,
        }
    }
}

/// A response with a status and nothing else.
pub open spec fn status_only(code: u16) -> ResponseView {
    ResponseView { status: code, location: None, server: None, body: BodyView::Empty }
}

/// A response with a status and a plain-text body.
pub open spec fn text_reply(code: u16, text: Seq<char>) -> ResponseView {
    ResponseView { status: code, location: None, server: None, body: BodyView::Text(text) }
}

/// A temporary redirect to `target`.
pub open spec fn redirect_to(target: Seq<char>) -> ResponseView {
    ResponseView { status: 307, location: Some(target), server: None, body: BodyView::Empty }
}

/// A 200 response with this body.
pub open spec fn ok_with(body: BodyView) -> ResponseView {
    ResponseView { status: 200, location: None, server: None, body }
}

/// The generic 500 reported for a failure of the service.
pub open spec fn catch_all() -> ResponseView {
    text_reply(500, "Catch-all error type"@)
}

/// The value of the `server` header on every response.
pub open spec fn server_name() -> Seq<char> {
    "url"@
}

/// `r` with the `server` header set.
pub open spec fn with_server(r: ResponseView) -> ResponseView {
    ResponseView { server: Some(server_name()), ..r }
}

pub fn empty_response(code: u16) -> (r: Response)
    ensures
        r@ == status_only(code),
{
    Response { status: code, location: None, server: None, body: Body::Empty }
}

pub fn text_response(code: u16, text: String) -> (r: Response)
    ensures
        r@ == text_reply(code, text@),
{
    Response { status: code, location: None, server: None, body: Body::Text(text) }
}

pub fn catch_all_response() -> (r: Response)
    ensures
        r@ == catch_all(),
{
    text_response(500, "Catch-all error type".to_owned())
}

/// Stamps the `server` header on every response.
pub struct DefaultHeaders;

impl DefaultHeaders {
    /// `resp` with its `server` header set to the service's name.
    pub fn apply(&self, resp: Response) -> (r: Response)
        ensures
            r@ == with_server(resp@),
    {
        Response { server: Some("url".to_owned()), ..resp }
    }
}

} // verus!
