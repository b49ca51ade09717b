//! Laws of the service, stated over what `Server::call` answers and leaves.
use vstd::prelude::*;
use crate::handlers::{short_url_base, strip_slash, url_parse_error};
use crate::http::{BodyView, Method, Request, Route, Tokens, ok_with, redirect_to, status_only, text_reply};
use crate::model::opt_view;
use crate::server::{authorized, effect_spec, guarded, reply_spec};
use crate::store::{Store, has_key, key_index, same_tables};

verus! {

/// The alphabet of generated short-URL ids.
pub open spec fn url_id_alphabet() -> Seq<char> {
    "0123456789abcdefghijklmnopqrstuvwxyzABCDEFGHIJKLMNOPQRSTUVWXYZ"@
}

/// A generated short-URL id: five characters of the id alphabet.
pub open spec fn is_url_token(s: Seq<char>) -> bool {
    s.len() == 5 && forall|i: int| 0 <= i < s.len() ==> url_id_alphabet().contains(#[trigger] s[i])
}

/// `req` asks to create a short URL for `url`, with no id of its own.
pub open spec fn creates_without_id(req: Request, url: Seq<char>) -> bool {
    &&& req.method == Method::Post
    &&& match req.route {
        Route::NewUrl { url_request: Ok(b) } => b.id is None && b.url@ == url,
        _ => false,
    }
}

/// `req` asks to create a short URL for `url` under the id `id`.
pub open spec fn creates_with_id(req: Request, id: Seq<char>, url: Seq<char>) -> bool {
    &&& req.method == Method::Post
    &&& match req.route {
        Route::NewUrl { url_request: Ok(b) } => match b.id {
            Some(i) => i@ == id && b.url@ == url,
            None => false,
        },
        _ => false,
    }
}

/// `req` is a `GET` of the short URL `id`.
pub open spec fn looks_up(req: Request, id: Seq<char>) -> bool {
    &&& req.method == Method::Get
    &&& match req.route {
        Route::Lookup { path } => strip_slash(path@) == id,
        _ => false,
    }
}

/// `req` asks to create an API key described by `description`.
pub open spec fn creates_key(req: Request, description: Option<Seq<char>>) -> bool {
    &&& req.method == Method::Post
    &&& match req.route {
        Route::Keys { create: Ok(c), .. } => opt_view(c.description) == description,
        _ => false,
    }
}

/// `req` asks for the list of API keys.
pub open spec fn lists_keys(req: Request) -> bool {
    req.method == Method::Get && req.route is Keys
}

/// `req` asks to delete the API key `key`.
pub open spec fn deletes_key(req: Request, key: Seq<char>) -> bool {
    &&& req.method == Method::Delete
    &&& match req.route {
        Route::Keys { remove: Ok(d), .. } => d.key@ == key,
        _ => false,
    }
}

/// A valid URL submitted without an id gets the fresh generated id, which is
/// five characters of the id alphabet, and a later `GET` of that id
/// redirects to the URL.
pub proof fn lemma_generated_id_redirects(
    s: Store,
    req: Request,
    url: Seq<char>,
    tokens: Tokens,
    t: Store,
    get: Request,
    later: Tokens,
)
    requires
        creates_without_id(req, url),
        url_parse_error(url) is None,
        authorized(s, req),
        is_url_token(tokens.url_id@),
        !s.urls_view().contains_key(tokens.url_id@),
        effect_spec(s, req, tokens, t),
        looks_up(get, tokens.url_id@),
    ensures
        reply_spec(s, req, tokens) == text_reply(200, short_url_base() + tokens.url_id@),
        tokens.url_id@.len() == 5,
        forall|i: int| 0 <= i < 5 ==> url_id_alphabet().contains(#[trigger] tokens.url_id@[i]),
        reply_spec(t, get, later) == redirect_to(url),
{
    assert(t.urls_view().contains_key(tokens.url_id@));
}

/// Submitting a valid URL under an unused explicit id succeeds; submitting
/// it again under the same id is refused with 400.
pub proof fn lemma_duplicate_id_refused(
    s: Store,
    req: Request,
    id: Seq<char>,
    url: Seq<char>,
    tokens: Tokens,
    t: Store,
    again: Tokens,
)
    requires
        creates_with_id(req, id, url),
        url_parse_error(url) is None,
        authorized(s, req),
        !s.urls_view().contains_key(id),
        effect_spec(s, req, tokens, t),
    ensures
        reply_spec(s, req, tokens).status == 200,
        reply_spec(t, req, again).status == 400,
{
    assert(t.urls_view().contains_key(id));
    assert(t.keys_view() == s.keys_view());
}

/// A `GET` of an id that no short URL has is answered 404.
pub proof fn lemma_missing_id_not_found(s: Store, get: Request, id: Seq<char>, tokens: Tokens)
    requires
        looks_up(get, id),
        !s.urls_view().contains_key(id),
    ensures
        reply_spec(s, get, tokens) == status_only(404),
{
}

/// After a successful creation of an API key, the list of keys holds it with
/// the description that was submitted.
pub proof fn lemma_created_key_listed(
    s: Store,
    post: Request,
    description: Option<Seq<char>>,
    tokens: Tokens,
    t: Store,
    list: Request,
    later: Tokens,
)
    requires
        creates_key(post, description),
        authorized(s, post),
        reply_spec(s, post, tokens).status == 200,
        effect_spec(s, post, tokens, t),
        lists_keys(list),
        authorized(s, list),
    ensures
        reply_spec(s, post, tokens) == ok_with(BodyView::NewKey(tokens.api_key@)),
        reply_spec(t, list, later) == ok_with(BodyView::Keys(t.keys_view())),
        t.keys_view().contains((s.next_id_view(), tokens.api_key@, description)),
{
    let k = list.api_key.unwrap()@;
    let i = choose|i: int| 0 <= i < s.keys_view().len() && (#[trigger] s.keys_view()[i]).1 == k;
    assert(t.keys_view()[i].1 == k);
    let rows = t.keys_view();
    assert(rows[s.keys_view().len() as int] == (s.next_id_view(), tokens.api_key@, description));
}

/// Deleting an API key that is not stored is answered 404.
pub proof fn lemma_delete_missing_key(s: Store, del: Request, key: Seq<char>, tokens: Tokens)
    requires
        deletes_key(del, key),
        authorized(s, del),
        !has_key(s.keys_view(), key),
    ensures
        reply_spec(s, del, tokens) == status_only(404),
{
}

/// Deleting a stored API key is answered 200, and repeating the deletion is
/// answered 404 (where the key that authorizes it is another one).
pub proof fn lemma_delete_key_twice(
    s: Store,
    del: Request,
    key: Seq<char>,
    tokens: Tokens,
    t: Store,
    again: Tokens,
)
    requires
        s.wf(),
        deletes_key(del, key),
        authorized(s, del),
        del.api_key.unwrap()@ != key,
        has_key(s.keys_view(), key),
        effect_spec(s, del, tokens, t),
    ensures
        reply_spec(s, del, tokens) == status_only(200),
        reply_spec(t, del, again) == status_only(404),
{
    s.lemma_keys_unique();
    let rows = s.keys_view();
    let ki = key_index(rows, key);
    let k = del.api_key.unwrap()@;
    let i = choose|i: int| 0 <= i < rows.len() && (#[trigger] rows[i]).1 == k;
    assert(t.keys_view() == rows.remove(ki));
    if i < ki {
        assert(t.keys_view()[i].1 == k);
    } else {
        assert(i != ki);
        assert(t.keys_view()[i - 1].1 == k);
    }
    assert(authorized(t, del));
    if has_key(t.keys_view(), key) {
        let j = choose|j: int| 0 <= j < t.keys_view().len() && (#[trigger] t.keys_view()[j]).1 == key;
        if j < ki {
            assert(rows[j].1 == key);
        } else {
            assert(rows[j + 1].1 == key);
        }
    }
}

/// A request to a guarded route without `x-api-key`, or with a key that is
/// not stored, is answered 401 and leaves the tables as they were.
pub proof fn lemma_unauthorized_refused(s: Store, req: Request, tokens: Tokens, t: Store)
    requires
        guarded(req),
        match req.api_key {
            None => true,
            Some(k) => !has_key(s.keys_view(), k@),
        },
        effect_spec(s, req, tokens, t),
    ensures
        reply_spec(s, req, tokens) == status_only(401),
        same_tables(s, t),
{
}

} // verus!
