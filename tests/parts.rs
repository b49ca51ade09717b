use seqtf_url::client::{answer_text, default_api_endpoint, default_api_key, default_log_level, Config, Delete, Key, New};
use seqtf_url::config::{config_file_path, db_file_path, get_db_path, get_trace_level, level_from_upper, LogLevel, DATABASE_URL};
use seqtf_url::error::{url_err_any, url_err_request, Error};
use seqtf_url::handlers::{create_step, resume, start, Pending, Step};
use seqtf_url::http::{empty_response, Body, DefaultHeaders, Method, Request, Route, Tokens};
use seqtf_url::model::{ApiKey, Url, UrlDb, UrlDbInsert, UrlRequest};
use seqtf_url::store::{Answer, Query, Store, StoreError};
use seqtf_url::text::{join, str_eq};

fn status_of(step: Step) -> u16 {
    match step {
        Step::Reply(r) => r.status,
        Step::Run(..) => panic!("expected a reply"),
    }
}

fn text_of(step: Step) -> String {
    match step {
        Step::Reply(r) => match r.body {
            Body::Text(t) => t,
            _ => panic!("expected a text body"),
        },
        Step::Run(..) => panic!("expected a reply"),
    }
}

#[test]
fn text_helpers() {
    assert!(str_eq("abc", "abc"));
    assert!(!str_eq("abc", "abd"));
    assert!(!str_eq("abc", "ab"));
    assert!(str_eq("", ""));
    assert_eq!(join("ab", "cd"), "abcd");
}

#[test]
fn error_kinds() {
    let any = url_err_any("pool timed out".to_owned());
    assert_eq!(any.err_msg(), "pool timed out");
    assert_eq!(any.status_code(), 500);
    assert_eq!(any.title(), "Catch-all error type");
    let req = url_err_request("relative URL without a base".to_owned());
    assert!(matches!(req, Error::RequestError(_)));
    let e = req.error_response();
    assert_eq!(e.code, 400);
    assert_eq!(e.error, "Request error");
    assert_eq!(e.message, "relative URL without a base");
}

#[test]
fn url_conversions() {
    let db = UrlDb { id: "abc".to_owned(), url: "https://example.com".to_owned() };
    let u = Url::from(db);
    assert_eq!(u.id, "abc");
    let back = UrlDb::from(u);
    assert_eq!(back.url, "https://example.com");
    let a = Url { id: "x".to_owned(), url: "https://a".to_owned() };
    let b = Url { id: "x".to_owned(), url: "https://a".to_owned() };
    let c = Url { id: "x".to_owned(), url: "https://b".to_owned() };
    assert!(a == b);
    assert!(a != c);
}

#[test]
fn create_step_from_check_result() {
    let b = UrlRequest { id: None, url: "https://example.com".to_owned() };
    match create_step(b, "Zz9aA".to_owned(), Ok(())) {
        Step::Run(Pending::Created { id }, Query::InsertUrl { row }) => {
            assert_eq!(id, "Zz9aA");
            assert_eq!(row.id, "Zz9aA");
            assert_eq!(row.url, "https://example.com");
        }
        _ => panic!("expected the insertion"),
    }
    let named = UrlRequest { id: Some("mine".to_owned()), url: "https://example.com".to_owned() };
    match create_step(named, "Zz9aA".to_owned(), Ok(())) {
        Step::Run(Pending::Created { id }, _) => assert_eq!(id, "mine"),
        _ => panic!("expected the insertion"),
    }
    let bad = UrlRequest { id: None, url: "nope".to_owned() };
    match create_step(bad, "Zz9aA".to_owned(), Err("invalid port number".to_owned())) {
        Step::Reply(r) => {
            assert_eq!(r.status, 400);
            match r.body {
                Body::Error(e) => {
                    assert_eq!(e.code, 400);
                    assert_eq!(e.error, "Request error");
                    assert_eq!(e.message, "invalid port number");
                }
                _ => panic!("expected an error envelope"),
            }
        }
        _ => panic!("expected a reply"),
    }
}

#[test]
fn parser_messages_reach_the_reply() {
    let req = Request {
        method: Method::Post,
        route: Route::NewUrl {
            url_request: Ok(UrlRequest { id: None, url: "http://example.com:99999".to_owned() }),
        },
        api_key: None,
    };
    let tokens = Tokens { url_id: "aaaaa".to_owned(), api_key: "b".to_owned() };
    match start(req, tokens) {
        Step::Reply(r) => assert_eq!(r.status, 401),
        _ => panic!("expected the refusal"),
    }
    let ok = UrlRequest { id: None, url: "https://example.com/path?q=1".to_owned() };
    let req = Request { method: Method::Post, route: Route::NewUrl { url_request: Ok(ok) }, api_key: Some("k".to_owned()) };
    let tokens = Tokens { url_id: "aaaaa".to_owned(), api_key: "b".to_owned() };
    match start(req, tokens) {
        Step::Run(p, _) => {
            let found = ApiKey { id: 1, key: "k".to_owned(), description: None };
            assert!(matches!(resume(p, Ok(Answer::Keys(vec![found]))), Step::Run(Pending::Created { .. }, _)));
        }
        _ => panic!("expected the key lookup"),
    }
    let port = UrlRequest { id: None, url: "http://example.com:99999".to_owned() };
    let req = Request { method: Method::Post, route: Route::NewUrl { url_request: Ok(port) }, api_key: Some("k".to_owned()) };
    let tokens = Tokens { url_id: "aaaaa".to_owned(), api_key: "b".to_owned() };
    match start(req, tokens) {
        Step::Run(p, _) => {
            let found = ApiKey { id: 1, key: "k".to_owned(), description: None };
            match resume(p, Ok(Answer::Keys(vec![found]))) {
                Step::Reply(r) => match r.body {
                    Body::Error(e) => assert_eq!(e.message, "invalid port number"),
                    _ => panic!("expected an error envelope"),
                },
                _ => panic!("expected a reply"),
            }
        }
        _ => panic!("expected the key lookup"),
    }
}

#[test]
fn store_queries() {
    let mut s = Store::new();
    let row = UrlDbInsert { id: "a".to_owned(), url: "https://a".to_owned() };
    assert!(matches!(s.run(&Query::InsertUrl { row }), Ok(Answer::Affected(1))));
    let dup = UrlDbInsert { id: "a".to_owned(), url: "https://b".to_owned() };
    assert!(matches!(s.run(&Query::InsertUrl { row: dup }), Err(StoreError::AlreadyExists)));
    match s.run(&Query::FindUrl { id: "a".to_owned() }) {
        Ok(Answer::Urls(v)) => {
            assert_eq!(v.len(), 1);
            assert_eq!(v[0].url, "https://a");
        }
        _ => panic!("expected rows"),
    }
    assert!(matches!(s.run(&Query::DeleteUrl { id: "a".to_owned() }), Ok(Answer::Affected(1))));
    assert!(matches!(s.run(&Query::DeleteUrl { id: "a".to_owned() }), Ok(Answer::Affected(0))));
    match s.run(&Query::FindUrl { id: "a".to_owned() }) {
        Ok(Answer::Urls(v)) => assert!(v.is_empty()),
        _ => panic!("expected rows"),
    }
    assert!(s.run(&Query::InsertKey { key: "k1".to_owned(), description: None }).is_ok());
    assert!(s.run(&Query::InsertKey { key: "k2".to_owned(), description: Some("two".to_owned()) }).is_ok());
    assert!(matches!(
        s.run(&Query::InsertKey { key: "k1".to_owned(), description: None }),
        Err(StoreError::AlreadyExists)
    ));
    match s.run(&Query::FindKey { key: "k2".to_owned() }) {
        Ok(Answer::Keys(v)) => {
            assert_eq!(v.len(), 1);
            assert_eq!(v[0].id, 2);
            assert_eq!(v[0].description.as_deref(), Some("two"));
        }
        _ => panic!("expected rows"),
    }
    assert!(matches!(s.run(&Query::DeleteKey { key: "k1".to_owned() }), Ok(Answer::Affected(1))));
    assert!(matches!(s.run(&Query::DeleteKey { key: "k1".to_owned() }), Ok(Answer::Affected(0))));
    assert!(s.run(&Query::InsertKey { key: "k3".to_owned(), description: None }).is_ok());
    match s.run(&Query::ListKeys) {
        Ok(Answer::Keys(v)) => {
            let ids: Vec<i64> = v.iter().map(|k| k.id).collect();
            assert_eq!(ids, vec![2, 3]);
        }
        _ => panic!("expected rows"),
    }
}

#[test]
fn filter_asks_for_the_key_first() {
    let req = Request {
        method: Method::Get,
        route: Route::Keys { create: Err("x".to_owned()), remove: Err("y".to_owned()) },
        api_key: Some("secret".to_owned()),
    };
    let tokens = Tokens { url_id: "aaaaa".to_owned(), api_key: "b".to_owned() };
    match start(req, tokens) {
        Step::Run(p, Query::FindKey { key }) => {
            assert_eq!(key, "secret");
            assert!(matches!(p, Pending::Authorize { .. }));
            let unknown = resume(p, Ok(Answer::Keys(vec![])));
            assert_eq!(status_of(unknown), 401);
        }
        _ => panic!("expected the key lookup"),
    }
}

#[test]
fn filter_failure_is_server_error() {
    let req = Request {
        method: Method::Post,
        route: Route::DeleteUrl { delete_request: Err("bad".to_owned()) },
        api_key: Some("secret".to_owned()),
    };
    let tokens = Tokens { url_id: "aaaaa".to_owned(), api_key: "b".to_owned() };
    match start(req, tokens) {
        Step::Run(p, _) => {
            let r = resume(p, Err(StoreError::Connection("no connection".to_owned())));
            assert_eq!(status_of(r), 500);
        }
        _ => panic!("expected the key lookup"),
    }
}

#[test]
fn database_errors_on_create() {
    let created = || Pending::Created { id: "abc".to_owned() };
    assert_eq!(text_of(resume(created(), Ok(Answer::Affected(1)))), "http://localhost:8380/abc");
    assert_eq!(
        text_of(resume(created(), Err(StoreError::AlreadyExists))),
        "URL name already in use. Try a different one"
    );
    assert_eq!(text_of(resume(created(), Err(StoreError::Database("disk I/O error".to_owned())))), "Database error");
    assert_eq!(status_of(resume(created(), Err(StoreError::Database("x".to_owned())))), 500);
    assert_eq!(text_of(resume(created(), Err(StoreError::Connection("x".to_owned())))), "Catch-all error type");
}

#[test]
fn database_errors_on_delete() {
    assert_eq!(status_of(resume(Pending::Removed, Ok(Answer::Affected(0)))), 404);
    assert_eq!(status_of(resume(Pending::Removed, Ok(Answer::Affected(1)))), 200);
    assert_eq!(text_of(resume(Pending::Removed, Err(StoreError::Database("locked".to_owned())))), "Database error");
    assert_eq!(text_of(resume(Pending::Removed, Err(StoreError::Connection("x".to_owned())))), "Catch-all error type");
}

#[test]
fn key_deletion_deletes_the_found_row() {
    let found = ApiKey { id: 4, key: "k4".to_owned(), description: None };
    match resume(Pending::KeyLookup, Ok(Answer::Keys(vec![found]))) {
        Step::Run(p, Query::DeleteKey { key }) => {
            assert_eq!(key, "k4");
            assert_eq!(status_of(resume(p, Ok(Answer::Affected(1)))), 200);
        }
        _ => panic!("expected the deletion"),
    }
    assert_eq!(status_of(resume(Pending::KeyLookup, Ok(Answer::Keys(vec![])))), 404);
}

#[test]
fn lookup_strips_the_slash() {
    let req = Request { method: Method::Get, route: Route::Lookup { path: "/xY12z".to_owned() }, api_key: None };
    let tokens = Tokens { url_id: "aaaaa".to_owned(), api_key: "b".to_owned() };
    match start(req, tokens) {
        Step::Run(Pending::Redirect, Query::FindUrl { id }) => assert_eq!(id, "xY12z"),
        _ => panic!("expected the lookup"),
    }
    let row = UrlDb { id: "xY12z".to_owned(), url: "https://example.org".to_owned() };
    match resume(Pending::Redirect, Ok(Answer::Urls(vec![row]))) {
        Step::Reply(r) => {
            assert_eq!(r.status, 307);
            assert_eq!(r.location.as_deref(), Some("https://example.org"));
        }
        _ => panic!("expected the redirect"),
    }
}

#[test]
fn server_header_stamped() {
    let r = DefaultHeaders.apply(empty_response(404));
    assert_eq!(r.status, 404);
    assert_eq!(r.server.as_deref(), Some("url"));
}

#[test]
fn server_settings() {
    assert_eq!(get_db_path(None), "./");
    assert_eq!(get_db_path(Some("/var/lib/url".to_owned())), "/var/lib/url");
    assert_eq!(DATABASE_URL, "db");
    assert_eq!(db_file_path("./"), ".//db");
    assert_eq!(db_file_path("/data"), "/data/db");
    assert_eq!(config_file_path("/data"), "/data/config.yaml");
}

#[test]
fn trace_levels() {
    assert_eq!(get_trace_level("info"), Some(LogLevel::Info));
    assert_eq!(get_trace_level("Trace"), Some(LogLevel::Trace));
    assert_eq!(get_trace_level("DEBUG"), Some(LogLevel::Debug));
    assert_eq!(get_trace_level("warn"), Some(LogLevel::Warn));
    assert_eq!(get_trace_level("error"), Some(LogLevel::Error));
    assert_eq!(get_trace_level("verbose"), None);
    assert_eq!(level_from_upper("info"), None);
    assert_eq!(level_from_upper("INFO"), Some(LogLevel::Info));
}

#[test]
fn client_defaults() {
    assert_eq!(default_log_level(), "INFO");
    assert_eq!(default_api_key(), None);
    assert_eq!(default_api_endpoint(), "http://localhost:8380");
    let c = Config::default();
    assert_eq!(c.log_level, "INFO");
    assert!(c.api_key.is_none());
    assert_eq!(c.api_endpoint, "http://localhost:8380");
}

#[test]
fn client_api_key_choice() {
    let mut c = Config::default();
    assert_eq!(c.get_api_key(None), None);
    c.api_key = Some("from-file".to_owned());
    assert_eq!(c.get_api_key(None), Some("from-file".to_owned()));
    assert_eq!(c.get_api_key(Some("from-env".to_owned())), Some("from-env".to_owned()));
}

#[test]
fn client_requests() {
    let mut c = Config::default();
    c.api_endpoint = "https://s.example".to_owned();
    assert_eq!(New::endpoint(&c), "https://s.example/new");
    assert_eq!(Delete::endpoint(&c), "https://s.example/delete");
    assert_eq!(Key::endpoint(&c), "https://s.example/key");
    let b = New::body("https://example.com".to_owned(), Some("ex".to_owned()));
    assert_eq!(b.url, "https://example.com");
    assert_eq!(b.id.as_deref(), Some("ex"));
    assert_eq!(Delete::body("ex".to_owned()).id, "ex");
    assert_eq!(Key::create_body(None).description.as_deref(), Some(""));
    assert_eq!(Key::create_body(Some("bot".to_owned())).description.as_deref(), Some("bot"));
    assert_eq!(Key::delete_body(None).key, "");
    assert_eq!(Key::delete_body(Some("k".to_owned())).key, "k");
}

#[test]
fn client_reports() {
    assert_eq!(answer_text(401, "ignored".to_owned()), "Unauthorised");
    assert_eq!(answer_text(200, "http://localhost:8380/abcde".to_owned()), "http://localhost:8380/abcde");
    let k = ApiKey { id: 1, key: "abc".to_owned(), description: Some("bot".to_owned()) };
    assert_eq!(Key::list_line(&k), "Key: 'abc' - \"bot\"");
    let bare = ApiKey { id: 2, key: "xyz".to_owned(), description: None };
    assert_eq!(Key::list_line(&bare), "Key: 'xyz' - \"\"");
    assert_eq!(Key::delete_outcome(200).as_deref(), Some("Key deleted"));
    assert_eq!(Key::delete_outcome(404).as_deref(), Some("Key not found"));
    assert_eq!(Key::delete_outcome(401).as_deref(), Some("Unauthorised"));
    assert_eq!(Key::delete_outcome(500), None);
}
