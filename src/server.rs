//! The whole service over in-memory tables: header filter, authorization
//! filter, handlers and queries composed, with what each request answers
//! and changes stated over the tables.
use vstd::prelude::*;
use crate::handlers::{
    Step, chosen_id, database_message, in_use_message, resume, short_url_base, start,
    strip_slash, url_parse_error,
};
use crate::http::{
    BodyView, DefaultHeaders, Method, Request, Response, ResponseView, Route, Tokens, catch_all,
    ok_with, redirect_to, status_only, text_reply, with_server,
};
use crate::model::opt_view;
use crate::store::{MAX_ROW_ID, Store, has_key, key_index, same_keys, same_tables};

verus! {

/// Whether the filter lets `req` through on the tables `s`: it carries an
/// `x-api-key` header whose value is a stored key.
pub open spec fn authorized(s: Store, req: Request) -> bool {
    match req.api_key {
        Some(k) => has_key(s.keys_view(), k@),
        None => false,
    }
}

/// Whether `req` goes through the authorization filter.
pub open spec fn guarded(req: Request) -> bool {
    match req.route {
        Route::Lookup { .. } => false,
        _ => true,
    }
}

/// What a handler answers to `req` on the tables `s`.
pub open spec fn handler_reply(s: Store, req: Request, tokens: Tokens) -> ResponseView {
    match req.route {
        Route::Lookup { path } => if req.method != Method::Get {
            status_only(405)
        } else if s.urls_view().contains_key(strip_slash(path@)) {
            redirect_to(s.urls_view()[strip_slash(path@)])
        } else {
            status_only(404)
        },
        Route::NewUrl { url_request } => if req.method != Method::Post {
            status_only(405)
        } else {
            match url_request {
                Err(m) => text_reply(400, m@),
                Ok(b) => match url_parse_error(b.url@) {
                    Some(e) => ResponseView {
                        status: 400,
                        location: None,
                        server: None,
                        body: BodyView::Error(400, "Request error"@, e),
                    },
                    None => if s.urls_view().contains_key(chosen_id(b.id, tokens.url_id)) {
                        text_reply(400, in_use_message())
                    } else {
                        text_reply(200, short_url_base() + chosen_id(b.id, tokens.url_id))
                    },
                },
            }
        },
        Route::DeleteUrl { delete_request } => if req.method != Method::Delete {
            status_only(405)
        } else {
            match delete_request {
                Err(m) => text_reply(400, m@),
                Ok(b) => if s.urls_view().contains_key(b.id@) {
                    status_only(200)
                } else {
                    status_only(404)
                },
            }
        },
        Route::Keys { create, remove } => match req.method {
            Method::Get => ok_with(BodyView::Keys(s.keys_view())),
            Method::Post => match create {
                Err(m) => text_reply(400, m@),
                Ok(_) => if has_key(s.keys_view(), tokens.api_key@) || s.next_id_view()
                    == MAX_ROW_ID {
                    catch_all()
                } else {
                    ok_with(BodyView::NewKey(tokens.api_key@))
                },
            },
            Method::Delete => match remove {
                Err(m) => text_reply(400, m@),
                Ok(d) => if has_key(s.keys_view(), d.key@) {
                    status_only(200)
                } else {
                    status_only(404)
                },
            },
            Method::Other => status_only(405),
        },
    }
}

/// What the service answers to `req` on the tables `s`, before the header
/// filter: 401 where the filter refuses it, else the handler's answer.
pub open spec fn reply_spec(s: Store, req: Request, tokens: Tokens) -> ResponseView {
    if guarded(req) && !authorized(s, req) {
        status_only(401)
    } else {
        handler_reply(s, req, tokens)
    }
}

/// The tables `t` that a handler leaves after `req` on the tables `s`.
pub open spec fn handler_effect(s: Store, req: Request, tokens: Tokens, t: Store) -> bool {
    match req.route {
        Route::Lookup { .. } => same_tables(s, t),
        Route::NewUrl { url_request } => match url_request {
            Ok(b) => if req.method == Method::Post && url_parse_error(b.url@) is None
                && !s.urls_view().contains_key(chosen_id(b.id, tokens.url_id)) {
                &&& t.urls_view() == s.urls_view().insert(chosen_id(b.id, tokens.url_id), b.url@)
                &&& same_keys(s, t)
            } else {
                same_tables(s, t)
            },
            Err(_) => same_tables(s, t),
        },
        Route::DeleteUrl { delete_request } => match delete_request {
            Ok(b) => if req.method == Method::Delete {
                &&& t.urls_view() == s.urls_view().remove(b.id@)
                &&& same_keys(s, t)
            } else {
                same_tables(s, t)
            },
            Err(_) => same_tables(s, t),
        },
        Route::Keys { create, remove } => match req.method {
            Method::Post => match create {
                Ok(c) => if !has_key(s.keys_view(), tokens.api_key@) && s.next_id_view()
                    != MAX_ROW_ID {
                    &&& t.keys_view() == s.keys_view().push(
                        (s.next_id_view(), tokens.api_key@, opt_view(c.description)),
                    )
                    &&& t.next_id_view() == s.next_id_view() + 1
                    &&& t.urls_view() == s.urls_view()
                } else {
                    same_tables(s, t)
                },
                Err(_) => same_tables(s, t),
            },
            Method::Delete => match remove {
                Ok(d) => if has_key(s.keys_view(), d.key@) {
                    &&& t.keys_view() == s.keys_view().remove(key_index(s.keys_view(), d.key@))
                    &&& t.urls_view() == s.urls_view()
                    &&& t.next_id_view() == s.next_id_view()
                } else {
                    same_tables(s, t)
                },
                Err(_) => same_tables(s, t),
            },
            _ => same_tables(s, t),
        },
    }
}

/// The tables `t` that `req` leaves after it ran on the tables `s`: a
/// request the filter refuses changes nothing.
pub open spec fn effect_spec(s: Store, req: Request, tokens: Tokens, t: Store) -> bool {
    if guarded(req) && !authorized(s, req) {
        same_tables(s, t)
    } else {
        handler_effect(s, req, tokens, t)
    }
}

/// The service, holding its tables in memory.
pub struct Server {
    store: Store,
}

impl Server {
    pub closed spec fn tables(&self) -> Store {
        self.store
    }

    pub closed spec fn wf(&self) -> bool {
        self.store.wf()
    }

    /// A service with empty tables.
    pub fn new() -> (r: Server)
        ensures
            r.wf(),
            r.tables().urls_view() == Map::<Seq<char>, Seq<char>>::empty(),
            r.tables().keys_view() == Seq::<(int, Seq<char>, Option<Seq<char>>)>::empty(),
    {
        Server { store: Store::new() }
    }

    /// A service over the tables `store`.
    pub fn with_store(store: Store) -> (r: Server)
        requires
            store.wf(),
        ensures
            r.wf(),
            r.tables() == store,
    {
        Server { store }
    }

    /// Serves one request; `tokens` supplies the id or key it may create.
    pub fn call(&mut self, req: Request, tokens: Tokens) -> (r: Response)
        requires
            old(self).wf(),
        ensures
            final(self).wf(),
            r@ == with_server(reply_spec(old(self).tables(), req, tokens)),
            effect_spec(old(self).tables(), req, tokens, final(self).tables()),
    {
        let ghost s = self.store;
        let ghost rq = req;
        let ghost tk = tokens;
        let first = start(req, tokens);
        let resp = match first {
            Step::Reply(resp) => resp,
            Step::Run(p1, q1) => {
                let a1 = self.store.run(&q1);
                match resume(p1, a1) {
                    Step::Reply(resp) => resp,
                    Step::Run(p2, q2) => {
                        let a2 = self.store.run(&q2);
                        match resume(p2, a2) {
                            Step::Reply(resp) => resp,
                            Step::Run(p3, q3) => {
                                let a3 = self.store.run(&q3);
                                match resume(p3, a3) {
                                    Step::Reply(resp) => resp,
                                    Step::Run(..) => {
                                        proof {
                                            assert(false);
                                        }
                                        crate::http::catch_all_response()
                                    },
                                }
                            },
                        }
                    },
                }
            },
        };
        DefaultHeaders.apply(resp)
    }
}

} // verus!
