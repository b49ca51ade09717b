//! The route handlers and the authorization filter, as a machine that
//! answers a request or asks for one query and resumes with its answer.
use vstd::prelude::*;
use crate::http::{
    Body, Method, Request, Response, ResponseView, Route, Tokens, BodyView, catch_all,
    catch_all_response, empty_response, ok_with, redirect_to, status_only, text_reply,
    text_response,
};
use crate::error::url_err_request;
use crate::model::{ApiKeyPostResponse, UrlDbInsert, UrlRequest, opt_view};
use crate::store::{Answer, Query, StoreError, key_records};
use crate::text::join;

verus! {

/// What the URL parser reports for `s`: `None` where `s` is an absolute
/// URL, else the text of its error.
pub uninterp spec fn url_parse_error(s: Seq<char>) -> Option<Seq<char>>;

/// `checked` is what the URL parser reports for `s`.
pub open spec fn parse_outcome(s: Seq<char>, checked: Result<(), String>) -> bool {
    match checked {
        Ok(_) => url_parse_error(s) == None::<Seq<char>>,
        Err(m) => url_parse_error(s) == Some(m@),
    }
}

/// Relies on `url::Url::parse`: whether `s` parses, and the `Display` text
/// of its error, depend on `s` alone.
#[verifier::external_body]
fn parse_url(s: &str) -> (r: Result<(), String>)
    ensures
        match r {
            Ok(_) => url_parse_error(s@) == None::<Seq<char>>,
            Err(m) => url_parse_error(s@) == Some(m@),
        },
{
    match url::Url::parse(s) {
        Ok(_) => Ok(()),
        Err(e) => Err(e.to_string()),
    }
}

/// The address that short URLs are handed out under.
pub open spec fn short_url_base() -> Seq<char> {
    "http://localhost:8380/"@
}

pub open spec fn in_use_message() -> Seq<char> {
    "URL name already in use. Try a different one"@
}

pub open spec fn database_message() -> Seq<char> {
    "Database error"@
}

/// The path of a lookup without its leading `/`.
pub open spec fn strip_slash(p: Seq<char>) -> Seq<char> {
    if p.len() > 0 && p[0] == '/' {
        p.drop_first()
    } else {
        p
    }
}

/// The id a new short URL gets: the one asked for, else the fresh token.
pub open spec fn chosen_id(asked: Option<String>, fresh: String) -> Seq<char> {
    match asked {
        Some(id) => id@,
        None => fresh@,
    }
}

/// What a handler waits for while its query runs.
pub enum Pending {
    /// The filter's lookup of the request's API key; the request follows.
    Authorize { request: Request, tokens: Tokens },
    /// The lookup of a short URL.
    Redirect,
    /// The insertion of a short URL with this id.
    Created { id: String },
    /// The deletion of a short URL.
    Removed,
    /// The read of all API keys.
    Listed,
    /// The insertion of this API key.
    KeyCreated { key: String },
    /// The lookup of an API key to delete.
    KeyLookup,
    /// The deletion of an API key.
    KeyRemoved,
}

/// The next move: answer, or run a query and resume.
pub enum Step {
    Reply(Response),
    Run(Pending, Query),
}

/// How many more queries can follow the one `p` waits for.
pub open spec fn rank(p: Pending) -> nat {
    match p {
        Pending::Authorize { .. } => 2,
        Pending::KeyLookup => 1,
        _ => 0,
    }
}

pub open spec fn replies(r: Step, v: ResponseView) -> bool {
    match r {
        Step::Reply(resp) => resp@ == v,
        Step::Run(..) => false,
    }
}

/// The move on a well-formed create request `b`, where `checked` is what
/// the URL parser made of `b.url` and `fresh` is a generated id.
pub open spec fn create_spec(b: UrlRequest, fresh: String, checked: Result<(), String>, r: Step) -> bool {
    match checked {
        Err(e) => replies(
            r,
            ResponseView {
                status: 400,
                location: None,
                server: None,
                body: BodyView::Error(400, "Request error"@, e@),
            },
        ),
        Ok(_) => match r {
            Step::Run(Pending::Created { id }, Query::InsertUrl { row }) => {
                &&& id@ == chosen_id(b.id, fresh)
                &&& row.id@ == id@
                &&& row.url@ == b.url@
            },
            _ => false,
        },
    }
}

/// What a handler does with `req`, once the filter has let it through.
pub open spec fn handle_spec(req: Request, tokens: Tokens, r: Step) -> bool {
    match req.route {
        Route::Lookup { path } => if req.method != Method::Get {
            replies(r, status_only(405))
        } else {
            match r {
                Step::Run(Pending::Redirect, Query::FindUrl { id }) => id@ == strip_slash(path@),
                _ => false,
            }
        },
        Route::NewUrl { url_request: body } => if req.method != Method::Post {
            replies(r, status_only(405))
        } else {
            match body {
                Err(m) => replies(r, text_reply(400, m@)),
                Ok(b) => exists|checked: Result<(), String>|
                    #![trigger create_spec(b, tokens.url_id, checked, r)]
                    parse_outcome(b.url@, checked) && create_spec(b, tokens.url_id, checked, r),
            }
        },
        Route::DeleteUrl { delete_request: body } => if req.method != Method::Delete {
            replies(r, status_only(405))
        } else {
            match body {
                Err(m) => replies(r, text_reply(400, m@)),
                Ok(b) => match r {
                    Step::Run(Pending::Removed, Query::DeleteUrl { id }) => id@ == b.id@,
                    _ => false,
                },
            }
        },
        Route::Keys { create, remove } => match req.method {
            Method::Get => match r {
                Step::Run(Pending::Listed, Query::ListKeys) => true,
                _ => false,
            },
            Method::Post => match create {
                Err(m) => replies(r, text_reply(400, m@)),
                Ok(c) => match r {
                    Step::Run(Pending::KeyCreated { key }, Query::InsertKey { key: k, description }) => {
                        &&& key@ == tokens.api_key@
                        &&& k@ == tokens.api_key@
                        &&& opt_view(description) == opt_view(c.description)
                    },
                    _ => false,
                },
            },
            Method::Delete => match remove {
                Err(m) => replies(r, text_reply(400, m@)),
                Ok(d) => match r {
                    Step::Run(Pending::KeyLookup, Query::FindKey { key }) => key@ == d.key@,
                    _ => false,
                },
            },
            Method::Other => replies(r, status_only(405)),
        },
    }
}

/// The first move on `req`: lookups go straight to their handler; every
/// other route first has the filter look up the `x-api-key` header, and is
/// refused with 401 where there is none.
pub open spec fn start_spec(req: Request, tokens: Tokens, r: Step) -> bool {
    match req.route {
        Route::Lookup { .. } => handle_spec(req, tokens, r),
        _ => match req.api_key {
            None => replies(r, status_only(401)),
            Some(k) => match r {
                Step::Run(Pending::Authorize { request, tokens: t }, Query::FindKey { key }) => {
                    &&& request == req
                    &&& t == tokens
                    &&& key@ == k@
                },
                _ => false,
            },
        },
    }
}

/// The move after the query that `p` waited for answered `a`.
pub open spec fn resume_spec(p: Pending, a: Result<Answer, StoreError>, r: Step) -> bool {
    match p {
        Pending::Authorize { request, tokens } => match a {
            Ok(Answer::Keys(v)) => if v@.len() == 0 {
                replies(r, status_only(401))
            } else {
                handle_spec(request, tokens, r)
            },
            _ => replies(r, catch_all()),
        },
        Pending::Redirect => match a {
            Ok(Answer::Urls(v)) => if v@.len() > 0 {
                replies(r, redirect_to(v@[0].url@))
            } else {
                replies(r, status_only(404))
            },
            _ => replies(r, catch_all()),
        },
        Pending::Created { id } => match a {
            Ok(Answer::Affected(_)) => replies(r, text_reply(200, short_url_base() + id@)),
            Err(StoreError::AlreadyExists) => replies(r, text_reply(400, in_use_message())),
            Err(StoreError::Database(_)) => replies(r, text_reply(500, database_message())),
            _ => replies(r, catch_all()),
        },
        Pending::Removed => match a {
            Ok(Answer::Affected(n)) => if n == 0 {
                replies(r, status_only(404))
            } else {
                replies(r, status_only(200))
            },
            Err(StoreError::AlreadyExists) => replies(r, text_reply(500, database_message())),
            Err(StoreError::Database(_)) => replies(r, text_reply(500, database_message())),
            _ => replies(r, catch_all()),
        },
        Pending::Listed => match a {
            Ok(Answer::Keys(v)) => replies(r, ok_with(BodyView::Keys(key_records(v@)))),
            _ => replies(r, catch_all()),
        },
        Pending::KeyCreated { key } => match a {
            Ok(Answer::Affected(_)) => replies(r, ok_with(BodyView::NewKey(key@))),
            _ => replies(r, catch_all()),
        },
        Pending::KeyLookup => match a {
            Ok(Answer::Keys(v)) => if v@.len() > 0 {
                match r {
                    Step::Run(Pending::KeyRemoved, Query::DeleteKey { key }) => key@ == v@[0].key@,
                    _ => false,
                }
            } else {
                replies(r, status_only(404))
            },
            _ => replies(r, catch_all()),
        },
        Pending::KeyRemoved => match a {
            Ok(Answer::Affected(_)) => replies(r, status_only(200)),
            _ => replies(r, catch_all()),
        },
    }
}

pub open spec fn run_rank_below(r: Step, bound: nat) -> bool {
    match r {
        Step::Run(p, _) => rank(p) < bound,
        Step::Reply(_) => true,
    }
}

fn lookup_id(path: &str) -> (r: String)
    ensures
        r@ == strip_slash(path@),
{
    let n = path.unicode_len();
    if n > 0 && path.get_char(0) == '/' {
        String::from_str(path.substring_char(1, n))
    } else {
        String::from_str(path)
    }
}

/// The move on a well-formed create request: a 400 with the parser's
/// message where `checked` refused the URL, else the insertion of the row
/// under the requested id, or under `fresh` where none was requested.
pub fn create_step(b: UrlRequest, fresh: String, checked: Result<(), String>) -> (r: Step)
    ensures
        create_spec(b, fresh, checked, r),
        run_rank_below(r, 1),
{
    match checked {
        Err(e) => {
            let err = url_err_request(e);
            Step::Reply(
                Response {
                    status: err.status_code(),
                    location: None,
                    server: None,
                    body: Body::Error(err.error_response()),
                },
            )
        },
        Ok(_) => {
            let id = match b.id {
                Some(v) => v,
                None => fresh,
            };
            let row = UrlDbInsert { id: id.clone(), url: b.url };
            Step::Run(Pending::Created { id }, Query::InsertUrl { row })
        },
    }
}

/// The handler of `req`, which the filter has let through.
pub fn handle(req: Request, tokens: Tokens) -> (r: Step)
    ensures
        handle_spec(req, tokens, r),
        run_rank_below(r, 2),
{
    match req.route {
        Route::Lookup { path } => {
            if req.method != Method::Get {
                return Step::Reply(empty_response(405));
            }
            Step::Run(Pending::Redirect, Query::FindUrl { id: lookup_id(path.as_str()) })
        },
        Route::NewUrl { url_request: body } => {
            if req.method != Method::Post {
                return Step::Reply(empty_response(405));
            }
            match body {
                Err(m) => Step::Reply(text_response(400, m)),
                Ok(b) => {
                    let checked = parse_url(b.url.as_str());
                    create_step(b, tokens.url_id, checked)
                },
            }
        },
        Route::DeleteUrl { delete_request: body } => {
            if req.method != Method::Delete {
                return Step::Reply(empty_response(405));
            }
            match body {
                Err(m) => Step::Reply(text_response(400, m)),
                Ok(b) => Step::Run(Pending::Removed, Query::DeleteUrl { id: b.id }),
            }
        },
        Route::Keys { create, remove } => match req.method {
            Method::Get => Step::Run(Pending::Listed, Query::ListKeys),
            Method::Post => match create {
                Err(m) => Step::Reply(text_response(400, m)),
                Ok(c) => {
                    let key = tokens.api_key;
                    Step::Run(
                        Pending::KeyCreated { key: key.clone() },
                        Query::InsertKey { key, description: c.description },
                    )
                },
            },
            Method::Delete => match remove {
                Err(m) => Step::Reply(text_response(400, m)),
                Ok(d) => Step::Run(Pending::KeyLookup, Query::FindKey { key: d.key }),
            },
            Method::Other => Step::Reply(empty_response(405)),
        },
    }
}

/// The first move on a request.
pub fn start(req: Request, tokens: Tokens) -> (r: Step)
    ensures
        start_spec(req, tokens, r),
        run_rank_below(r, 3),
{
    match req.route {
        Route::Lookup { .. } => handle(req, tokens),
        _ => match &req.api_key {
            None => Step::Reply(empty_response(401)),
            Some(k) => {
                let key = k.clone();
                Step::Run(Pending::Authorize { request: req, tokens }, Query::FindKey { key })
            },
        },
    }
}

/// The move after the query that `p` waited for answered `a`.
pub fn resume(p: Pending, a: Result<Answer, StoreError>) -> (r: Step)
    ensures
        resume_spec(p, a, r),
        run_rank_below(r, rank(p)),
{
    match p {
        Pending::Authorize { request, tokens } => match a {
            Ok(Answer::Keys(v)) => {
                if v.len() == 0 {
                    Step::Reply(empty_response(401))
                } else {
                    handle(request, tokens)
                }
            },
            _ => Step::Reply(catch_all_response()),
        },
        Pending::Redirect => match a {
            Ok(Answer::Urls(v)) => {
                if v.len() > 0 {
                    let target = v[0].url.clone();
                    Step::Reply(
                        Response { status: 307, location: Some(target), server: None, body: Body::Empty },
                    )
                } else {
                    Step::Reply(empty_response(404))
                }
            },
            _ => Step::Reply(catch_all_response()),
        },
        Pending::Created { id } => match a {
            Ok(Answer::Affected(_)) => Step::Reply(
                text_response(200, join("http://localhost:8380/", id.as_str())),
            ),
            Err(StoreError::AlreadyExists) => Step::Reply(
                text_response(400, "URL name already in use. Try a different one".to_owned()),
            ),
            Err(StoreError::Database(_)) => Step::Reply(
                text_response(500, "Database error".to_owned()),
            ),
            _ => Step::Reply(catch_all_response()),
        },
        Pending::Removed => match a {
            Ok(Answer::Affected(n)) => {
                if n == 0 {
                    Step::Reply(empty_response(404))
                } else {
                    Step::Reply(empty_response(200))
                }
            },
            Err(StoreError::AlreadyExists) => Step::Reply(
                text_response(500, "Database error".to_owned()),
            ),
            Err(StoreError::Database(_)) => Step::Reply(
                text_response(500, "Database error".to_owned()),
            ),
            _ => Step::Reply(catch_all_response()),
        },
        Pending::Listed => match a {
            Ok(Answer::Keys(v)) => Step::Reply(
                Response { status: 200, location: None, server: None, body: Body::Keys(v) },
            ),
            _ => Step::Reply(catch_all_response()),
        },
        Pending::KeyCreated { key } => match a {
            Ok(Answer::Affected(_)) => Step::Reply(
                Response {
                    status: 200,
                    location: None,
                    server: None,
                    body: Body::NewKey(ApiKeyPostResponse { key }),
                },
            ),
            _ => Step::Reply(catch_all_response()),
        },
        Pending::KeyLookup => match a {
            Ok(Answer::Keys(v)) => {
                if v.len() > 0 {
                    Step::Run(Pending::KeyRemoved, Query::DeleteKey { key: v[0].key.clone() })
                } else {
                    Step::Reply(empty_response(404))
                }
            },
            _ => Step::Reply(catch_all_response()),
        },
        Pending::KeyRemoved => match a {
            Ok(Answer::Affected(_)) => Step::Reply(empty_response(200)),
            _ => Step::Reply(catch_all_response()),
        },
    }
}

} // verus!
