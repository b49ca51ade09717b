use seqtf_url::http::{Body, Method, Request, Response, Route, Tokens};
use seqtf_url::model::{ApiKeyDeleteRequest, ApiKeyPostRequest, UrlDeleteRequest, UrlRequest};
use seqtf_url::server::Server;
use seqtf_url::store::{Query, Store};

const ADMIN: &str = "admin-key";
const ID_ALPHABET: &str = "0123456789abcdefghijklmnopqrstuvwxyzABCDEFGHIJKLMNOPQRSTUVWXYZ";

fn server() -> Server {
    let mut store = Store::new();
    store
        .run(&Query::InsertKey { key: ADMIN.to_owned(), description: Some("admin".to_owned()) })
        .unwrap();
    Server::with_store(store)
}

fn tokens(url_id: &str, api_key: &str) -> Tokens {
    Tokens { url_id: url_id.to_owned(), api_key: api_key.to_owned() }
}

fn some_tokens() -> Tokens {
    tokens("aB3x9", "k3y&token")
}

fn key(k: Option<&str>) -> Option<String> {
    k.map(|s| s.to_owned())
}

fn lookup(path: &str) -> Request {
    Request { method: Method::Get, route: Route::Lookup { path: path.to_owned() }, api_key: None }
}

fn new_url(id: Option<&str>, url: &str, api_key: Option<&str>) -> Request {
    Request {
        method: Method::Post,
        route: Route::NewUrl {
            url_request: Ok(UrlRequest { id: id.map(|s| s.to_owned()), url: url.to_owned() }),
        },
        api_key: key(api_key),
    }
}

fn delete_url(id: &str, api_key: Option<&str>) -> Request {
    Request {
        method: Method::Delete,
        route: Route::DeleteUrl { delete_request: Ok(UrlDeleteRequest { id: id.to_owned() }) },
        api_key: key(api_key),
    }
}

fn keys_route(method: Method, description: Option<&str>, target: &str, api_key: Option<&str>) -> Request {
    Request {
        method,
        route: Route::Keys {
            create: Ok(ApiKeyPostRequest { description: description.map(|s| s.to_owned()) }),
            remove: Ok(ApiKeyDeleteRequest { key: target.to_owned() }),
        },
        api_key: key(api_key),
    }
}

fn text(r: &Response) -> String {
    match &r.body {
        Body::Text(t) => t.clone(),
        _ => panic!("expected a text body"),
    }
}

fn assert_server_header(r: &Response) {
    assert_eq!(r.server.as_deref(), Some("url"));
}

#[test]
fn new_url_without_id_redirects() {
    let mut s = server();
    let r = s.call(new_url(None, "https://example.com", Some(ADMIN)), some_tokens());
    assert_eq!(r.status, 200);
    assert_server_header(&r);
    let body = text(&r);
    assert_eq!(body, "http://localhost:8380/aB3x9");
    let id = body.strip_prefix("http://localhost:8380/").unwrap();
    assert_eq!(id.chars().count(), 5);
    assert!(id.chars().all(|c| ID_ALPHABET.contains(c)));
    let g = s.call(lookup(&format!("/{}", id)), some_tokens());
    assert_eq!(g.status, 307);
    assert_eq!(g.location.as_deref(), Some("https://example.com"));
    assert_server_header(&g);
}

#[test]
fn duplicate_explicit_id_refused() {
    let mut s = server();
    let first = s.call(new_url(Some("mine"), "https://example.com/a", Some(ADMIN)), some_tokens());
    assert_eq!(first.status, 200);
    assert_eq!(text(&first), "http://localhost:8380/mine");
    let second = s.call(new_url(Some("mine"), "https://example.com/b", Some(ADMIN)), some_tokens());
    assert_eq!(second.status, 400);
    assert_eq!(text(&second), "URL name already in use. Try a different one");
    let g = s.call(lookup("/mine"), some_tokens());
    assert_eq!(g.location.as_deref(), Some("https://example.com/a"));
}

#[test]
fn missing_id_not_found() {
    let mut s = server();
    let r = s.call(lookup("/nothing"), some_tokens());
    assert_eq!(r.status, 404);
    assert!(r.location.is_none());
    assert_server_header(&r);
}

#[test]
fn lookup_with_other_method_not_allowed() {
    let mut s = server();
    let mut req = lookup("/abc");
    req.method = Method::Post;
    assert_eq!(s.call(req, some_tokens()).status, 405);
}

#[test]
fn created_key_is_listed_with_description() {
    let mut s = server();
    let r = s.call(keys_route(Method::Post, Some("for the build bot"), "", Some(ADMIN)), some_tokens());
    assert_eq!(r.status, 200);
    match &r.body {
        Body::NewKey(k) => assert_eq!(k.key, "k3y&token"),
        _ => panic!("expected the new key"),
    }
    let l = s.call(keys_route(Method::Get, None, "", Some(ADMIN)), some_tokens());
    assert_eq!(l.status, 200);
    match &l.body {
        Body::Keys(v) => {
            assert_eq!(v.len(), 2);
            assert_eq!(v[0].key, ADMIN);
            assert_eq!(v[1].key, "k3y&token");
            assert_eq!(v[1].description.as_deref(), Some("for the build bot"));
            assert_eq!(v[1].id, 2);
        }
        _ => panic!("expected the key list"),
    }
}

#[test]
fn new_key_authorizes() {
    let mut s = server();
    s.call(keys_route(Method::Post, None, "", Some(ADMIN)), some_tokens());
    let r = s.call(new_url(Some("x"), "https://example.com", Some("k3y&token")), some_tokens());
    assert_eq!(r.status, 200);
}

#[test]
fn delete_missing_key_not_found() {
    let mut s = server();
    let r = s.call(keys_route(Method::Delete, None, "no-such-key", Some(ADMIN)), some_tokens());
    assert_eq!(r.status, 404);
}

#[test]
fn delete_key_twice() {
    let mut s = server();
    s.call(keys_route(Method::Post, Some("temp"), "", Some(ADMIN)), some_tokens());
    let first = s.call(keys_route(Method::Delete, None, "k3y&token", Some(ADMIN)), some_tokens());
    assert_eq!(first.status, 200);
    let second = s.call(keys_route(Method::Delete, None, "k3y&token", Some(ADMIN)), some_tokens());
    assert_eq!(second.status, 404);
    let refused = s.call(new_url(None, "https://example.com", Some("k3y&token")), some_tokens());
    assert_eq!(refused.status, 401);
}

#[test]
fn missing_or_unknown_key_refused() {
    let mut s = server();
    let no_header = s.call(new_url(Some("a"), "https://example.com", None), some_tokens());
    assert_eq!(no_header.status, 401);
    assert_server_header(&no_header);
    let unknown = s.call(new_url(Some("a"), "https://example.com", Some("guess")), some_tokens());
    assert_eq!(unknown.status, 401);
    assert_eq!(s.call(delete_url("a", None), some_tokens()).status, 401);
    assert_eq!(s.call(keys_route(Method::Get, None, "", Some("guess")), some_tokens()).status, 401);
    assert_eq!(s.call(keys_route(Method::Post, None, "", None), some_tokens()).status, 401);
    assert_eq!(s.call(lookup("/a"), some_tokens()).status, 404);
    let l = s.call(keys_route(Method::Get, None, "", Some(ADMIN)), some_tokens());
    match &l.body {
        Body::Keys(v) => assert_eq!(v.len(), 1),
        _ => panic!("expected the key list"),
    }
}

#[test]
fn invalid_url_rejected() {
    let mut s = server();
    let r = s.call(new_url(Some("a"), "not a url", Some(ADMIN)), some_tokens());
    assert_eq!(r.status, 400);
    match &r.body {
        Body::Error(e) => {
            assert_eq!(e.code, 400);
            assert_eq!(e.error, "Request error");
            assert_eq!(e.message, "relative URL without a base");
        }
        _ => panic!("expected an error envelope"),
    }
    assert_eq!(s.call(lookup("/a"), some_tokens()).status, 404);
}

#[test]
fn malformed_body_rejected() {
    let mut s = server();
    let req = Request {
        method: Method::Post,
        route: Route::NewUrl { url_request: Err("expected value at line 1 column 1".to_owned()) },
        api_key: key(Some(ADMIN)),
    };
    let r = s.call(req, some_tokens());
    assert_eq!(r.status, 400);
    assert_eq!(text(&r), "expected value at line 1 column 1");
}

#[test]
fn wrong_methods_not_allowed() {
    let mut s = server();
    let mut n = new_url(None, "https://example.com", Some(ADMIN));
    n.method = Method::Get;
    assert_eq!(s.call(n, some_tokens()).status, 405);
    let mut d = delete_url("a", Some(ADMIN));
    d.method = Method::Post;
    assert_eq!(s.call(d, some_tokens()).status, 405);
    let k = keys_route(Method::Other, None, "", Some(ADMIN));
    assert_eq!(s.call(k, some_tokens()).status, 405);
}

#[test]
fn delete_url_then_missing() {
    let mut s = server();
    s.call(new_url(Some("gone"), "https://example.com", Some(ADMIN)), some_tokens());
    assert_eq!(s.call(delete_url("gone", Some(ADMIN)), some_tokens()).status, 200);
    assert_eq!(s.call(delete_url("gone", Some(ADMIN)), some_tokens()).status, 404);
    assert_eq!(s.call(lookup("/gone"), some_tokens()).status, 404);
}

#[test]
fn generated_key_collision_is_server_error() {
    let mut s = server();
    let r = s.call(keys_route(Method::Post, None, "", Some(ADMIN)), tokens("aB3x9", ADMIN));
    assert_eq!(r.status, 500);
    assert_eq!(text(&r), "Catch-all error type");
}
