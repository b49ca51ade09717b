//! The command-line client: its settings, the requests it sends and how it
//! reports the answers.
use vstd::prelude::*;
use crate::model::{ApiKey, ApiKeyDeleteRequest, ApiKeyPostRequest, UrlDeleteRequest, UrlRequest, clone_opt, opt_view};
use crate::text::join;

verus! {

/// The client's settings, kept in its `config.yaml`.
pub struct Config {
    pub log_level: String,
    pub api_key: Option<String>,
    pub api_endpoint: String,
}

pub fn default_log_level() -> (r: String)
    ensures
        r@ == "INFO"@,
{
    "INFO".to_owned()
}

pub fn default_api_key() -> (r: Option<String>)
    ensures
        r is None,
{
    None
}

pub fn default_api_endpoint() -> (r: String)
    ensures
        r@ == "http://localhost:8380"@,
{
    "http://localhost:8380".to_owned()
}

impl Default for Config {
    fn default() -> (r: Config)
        ensures
            r.log_level@ == "INFO"@,
            r.api_key is None,
            r.api_endpoint@ == "http://localhost:8380"@,
    {
        Config {
            log_level: default_log_level(),
            api_key: default_api_key(),
            api_endpoint: default_api_endpoint(),
        }
    }
}

impl Config {
    /// The API key to send: the value of `SEQ_URL_API_KEY` where it is set
    /// (`from_env`), else the one in the settings.
    pub fn get_api_key(&self, from_env: Option<String>) -> (r: Option<String>)
        ensures
            opt_view(r) == match from_env {
                Some(v) => Some(v@),
                None => opt_view(self.api_key),
            },
    {
        match from_env {
            Some(v) => Some(v),
            None => clone_opt(&self.api_key),
        }
    }

    /// The address of the route `path` on the configured service.
    pub fn route(&self, path: &str) -> (r: String)
        ensures
            r@ == self.api_endpoint@ + path@,
    {
        join(self.api_endpoint.as_str(), path)
    }
}

/// What the client prints for an answer with status `status` and text
/// `text`: a refusal of the key, else the text.
pub fn answer_text(status: u16, text: String) -> (r: String)
    ensures
        r@ == if status == 401 {
            "Unauthorised"@
        } else {
            text@
        },
{
    if status == 401 {
        "Unauthorised".to_owned()
    } else {
        text
    }
}

/// The `new` command: create a short URL.
pub struct New;

impl New {
    /// The route the command posts to.
    pub fn endpoint(conf: &Config) -> (r: String)
        ensures
            r@ == conf.api_endpoint@ + "/new"@,
    {
        conf.route("/new")
    }

    /// The body it sends: the URL and the optional custom name.
    pub fn body(url: String, name: Option<String>) -> (r: UrlRequest)
        ensures
            r.url@ == url@,
            opt_view(r.id) == opt_view(name),
    {
        UrlRequest { id: name, url }
    }
}

/// The `delete` command: delete a short URL.
pub struct Delete;

impl Delete {
    pub fn endpoint(conf: &Config) -> (r: String)
        ensures
            r@ == conf.api_endpoint@ + "/delete"@,
    {
        conf.route("/delete")
    }

    /// The body it sends: the name of the short URL.
    pub fn body(name: String) -> (r: UrlDeleteRequest)
        ensures
            r.id@ == name@,
    {
        UrlDeleteRequest { id: name }
    }
}

/// The `key` command: list, create and delete API keys.
pub struct Key;

impl Key {
    pub fn endpoint(conf: &Config) -> (r: String)
        ensures
            r@ == conf.api_endpoint@ + "/key"@,
    {
        conf.route("/key")
    }

    /// The body of a creation: the description, empty where none was given.
    pub fn create_body(description: Option<String>) -> (r: ApiKeyPostRequest)
        ensures
            opt_view(r.description) == Some(
                match description {
                    Some(d) => d@,
                    None => Seq::<char>::empty(),
                },
            ),
    {
        match description {
            Some(d) => ApiKeyPostRequest { description: Some(d) },
            None => ApiKeyPostRequest { description: Some(String::new()) },
        }
    }

    /// The body of a deletion: the key, empty where none was given.
    pub fn delete_body(key: Option<String>) -> (r: ApiKeyDeleteRequest)
        ensures
            r.key@ == match key {
                Some(k) => k@,
                None => Seq::<char>::empty(),
            },
    {
        match key {
            Some(k) => ApiKeyDeleteRequest { key: k },
            None => ApiKeyDeleteRequest { key: String::new() },
        }
    }

    /// The line printed for one key of the list.
    pub fn list_line(k: &ApiKey) -> (r: String)
        ensures
            r@ == "Key: '"@ + k.key@ + "' - \""@ + match k.description {
                Some(d) => d@,
                None => Seq::<char>::empty(),
            } + "\""@,
    {
        let head = join("Key: '", k.key.as_str());
        let mid = join(head.as_str(), "' - \"");
        let with_description = match &k.description {
            Some(d) => join(mid.as_str(), d.as_str()),
            None => mid,
        };
        join(with_description.as_str(), "\"")
    }

    /// What is printed after a deletion answered with `status`, if anything.
    pub fn delete_outcome(status: u16) -> (r: Option<String>)
        ensures
            opt_view(r) == if status == 401 {
                Some("Unauthorised"@)
            } else if status == 200 {
                Some("Key deleted"@)
            } else if status == 404 {
                Some("Key not found"@)
            } else {
                None
            },
    {
        if status == 401 {
            Some("Unauthorised".to_owned())
        } else if status == 200 {
            Some("Key deleted".to_owned())
        } else if status == 404 {
            Some("Key not found".to_owned())
        } else {
            None
        }
    }
}

} // verus!
