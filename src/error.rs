//! The service's error type and the JSON envelope that reports it.
use vstd::prelude::*;

verus! {

/// A failure while serving a request, with the message of its cause.
#[derive(Debug)]
pub enum Error {
    /// Any failure of the service itself (storage, connections).
    Any(String),
    /// A request that the service cannot act on.
    RequestError(String),
}

/// The body of an error response: `{code, error, message}`.
#[derive(Debug)]
pub struct ErrorResponse {
    pub code: u16,
    pub error: String,
    pub message: String,
}

impl Error {
    pub open spec fn message_view(&self) -> Seq<char> {
        match self {
            Error::Any(m) => m@,
            Error::RequestError(m) => m@,
        }
    }

    pub open spec fn title_view(&self) -> Seq<char> {
        match self {
            Error::Any(_) => "Catch-all error type"@,
            Error::RequestError(_) => "Request error"@,
        }
    }

    pub open spec fn status_view(&self) -> u16 {
        match self {
            Error::Any(_) => 500,
            Error::RequestError(_) => 400,
        }
    }

    /// The message of the underlying cause.
    pub fn err_msg(&self) -> (r: String)
        ensures
            r@ == self.message_view(),
    {
        match self {
            Error::Any(m) => m.clone(),
            Error::RequestError(m) => m.clone(),
        }
    }

    /// The short title of the error kind.
    pub fn title(&self) -> (r: String)
        ensures
            r@ == self.title_view(),
    {
        match self {
            Error::Any(_) => "Catch-all error type".to_owned(),
            Error::RequestError(_) => "Request error".to_owned(),
        }
    }

    /// 500 for a failure of the service, 400 for a bad request.
    pub fn status_code(&self) -> (r: u16)
        ensures
            r == self.status_view(),
    {
        match self {
            Error::Any(_) => 500,
            Error::RequestError(_) => 400,
        }
    }

    /// The JSON envelope reported for this error.
    pub fn error_response(&self) -> (r: ErrorResponse)
        ensures
            r.code == self.status_view(),
            r.error@ == self.title_view(),
            r.message@ == self.message_view(),
    {
        ErrorResponse { code: self.status_code(), error: self.title(), message: self.err_msg() }
    }
}

/// A failure of the service, carrying the cause's message.
pub fn url_err_any(message: String) -> (r: Error)
    ensures
        r == Error::Any(message),
{
    Error::Any(message)
}

/// A rejected request, carrying the cause's message.
pub fn url_err_request(message: String) -> (r: Error)
    ensures
        r == Error::RequestError(message),
{
    Error::RequestError(message)
}

} // verus!
