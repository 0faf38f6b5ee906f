//! The service's error: what went wrong, with a message for the caller.

use vstd::prelude::*;

verus! {

/// An error of the service.
#[derive(Debug, PartialEq, Eq)]
pub enum WebError {
    /// The database failed.
    DBError(String),
    /// A request could not be served.
    ActixError(String),
    /// The thing asked for does not exist.
    NotFound(String),
}

/// The JSON body sent back for an error: its message and its HTTP status.
#[derive(Debug, PartialEq, Eq)]
pub struct WebErrorResponse {
    pub error: String,
    pub code: u16,
}

impl WebError {
    /// The message the error carries, whatever its kind.
    pub open spec fn message(&self) -> Seq<char> {
        match self {
            WebError::DBError(m) => m@,
            WebError::ActixError(m) => m@,
            WebError::NotFound(m) => m@,
        }
    }

    /// The HTTP status of an error: 404 when something was not found, 500
    /// otherwise.
    pub open spec fn spec_status_code(&self) -> u16 {
        match self {
            WebError::NotFound(_) => 404,
            _ => 500,
        }
    }

    /// The message sent to the caller.
    pub fn error_response(&self) -> (s: String)
        ensures
            s@ == self.message(),
    {
        match self {
            WebError::DBError(msg) => msg.clone(),
            WebError::ActixError(msg) => msg.clone(),
            WebError::NotFound(msg) => msg.clone(),
        }
    }

    /// The HTTP status of the error.
    pub fn status_code(&self) -> (code: u16)
        ensures
            code == self.spec_status_code(),
    {
        match self {
            WebError::NotFound(_) => 404,
            _ => 500,
        }
    }

    /// The error as text: its message.
    pub fn to_string(&self) -> (s: String)
        ensures
            s@ == self.message(),
    {
        self.error_response()
    }

    /// The JSON body for the error, holding its message and its status.
    pub fn to_response(&self) -> (r: WebErrorResponse)
        ensures
            r.error@ == self.message(),
            r.code == self.spec_status_code(),
    {
        WebErrorResponse { error: self.error_response(), code: self.status_code() }
    }
}

} // verus!
