//! The rows of the two tables and the request bodies that act on them.
use vstd::prelude::*;

verus! {

/// A short URL: its id and the address it redirects to.
#[derive(Debug)]
pub struct Url {
    pub id: String,
    pub url: String,
}

/// A row of the `urls` table as read back.
#[derive(Debug)]
pub struct UrlDb {
    pub id: String,
    pub url: String,
}

/// A row of the `urls` table to be inserted.
#[derive(Debug)]
pub struct UrlDbInsert {
    pub id: String,
    pub url: String,
}

/// Body of `POST /new`: an optional explicit id and the address.
#[derive(Debug)]
pub struct UrlRequest {
    pub id: Option<String>,
    pub url: String,
}

/// Body of `DELETE /delete`.
#[derive(Debug)]
pub struct UrlDeleteRequest {
    pub id: String,
}

/// A row of the `api_keys` table.
#[derive(Debug)]
pub struct ApiKey {
    pub id: i64,
    pub key: String,
    pub description: Option<String>,
}

/// Body of `POST /key`.
#[derive(Debug)]
pub struct ApiKeyPostRequest {
    pub description: Option<String>,
}

/// Answer of `POST /key`: the key that was created.
#[derive(Debug)]
pub struct ApiKeyPostResponse {
    pub key: String,
}

/// Body of `DELETE /key`.
#[derive(Debug)]
pub struct ApiKeyDeleteRequest {
    pub key: String,
}

pub open spec fn opt_view(o: Option<String>) -> Option<Seq<char>> {
    match o {
        Some(s) => Some(s@),
        None => None,
    }
}

pub fn clone_opt(o: &Option<String>) -> (r: Option<String>)
    ensures
        opt_view(r) == opt_view(*o),
{
    match o {
        Some(s) => Some(s.clone()),
        None => None,
    }
}

impl ApiKey {
    /// A copy of the row.
    pub fn duplicate(&self) -> (r: ApiKey)
        ensures
            r.id == self.id,
            r.key@ == self.key@,
            opt_view(r.description) == opt_view(self.description),
    {
        ApiKey { id: self.id, key: self.key.clone(), description: clone_opt(&self.description) }
    }
}

impl UrlDb {
    /// A copy of the row.
    pub fn duplicate(&self) -> (r: UrlDb)
        ensures
            r.id@ == self.id@,
            r.url@ == self.url@,
    {
        UrlDb { id: self.id.clone(), url: self.url.clone() }
    }
}

impl From<UrlDb> for Url {
    fn from(u: UrlDb) -> (r: Url) {
        Url { id: u.id, url: u.url }
    }
}

impl vstd::std_specs::convert::FromSpecImpl<UrlDb> for Url {
    open spec fn obeys_from_spec() -> bool {
        true
    }

    open spec fn from_spec(u: UrlDb) -> Url {
        Url { id: u.id, url: u.url }
    }
}

impl From<Url> for UrlDb {
    fn from(u: Url) -> (r: UrlDb) {
        UrlDb { id: u.id, url: u.url }
    }
}

impl vstd::std_specs::convert::FromSpecImpl<Url> for UrlDb {
    open spec fn obeys_from_spec() -> bool {
        true
    }

    open spec fn from_spec(u: Url) -> UrlDb {
        UrlDb { id: u.id, url: u.url }
    }
}

impl PartialEq for Url {
    fn eq(&self, other: &Url) -> (r: bool) {
        self.id == other.id && self.url == other.url
    }
}

impl vstd::std_specs::cmp::PartialEqSpecImpl for Url {
    open spec fn obeys_eq_spec() -> bool {
        true
    }

    open spec fn eq_spec(&self, other: &Url) -> bool {
        self.id@ == other.id@ && self.url@ == other.url@
    }
}

} // verus!
