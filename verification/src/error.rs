//! The error a middleware hook fails with.

use vstd::prelude::*;
use vstd::string::*;

verus! {

/// Status of a request that a route's rule refused.
pub const UNAUTHORIZED: u16 = 401;

/// Status of a request that no route took.
pub const NOT_FOUND: u16 = 404;

/// Status of a failure that is not the client's doing.
pub const INTERNAL_SERVER_ERROR: u16 = 500;

/// Why a hook failed: a short message, an optional detail, and the HTTP status
/// to answer with.
#[derive(Debug, Clone, PartialEq, Eq)]
pub struct MiddlewareError {
    pub description: String,
    pub body: Option<String>,
    pub status: u16,
}

/// An error, with its texts as sequences of characters.
pub struct ErrorView {
    pub description: Seq<char>,
    pub body: Option<Seq<char>>,
    pub status: u16,
}

impl View for MiddlewareError {
    type V = ErrorView;

    open spec fn view(&self) -> ErrorView {
        ErrorView {
            description: self.description@,
            body: match self.body {
                Some(b) => Some(b@),
                None => None,
            },
            status: self.status,
        }
    }
}

/// The error for a request that a matching route's rule refused.
pub open spec fn unauthorized_error() -> ErrorView {
    ErrorView {
        description: "Unauthorized"@,
        body: Some("Unauthorized"@),
        status: UNAUTHORIZED,
    }
}

/// The detail of the error for a request that no route took.
pub open spec fn no_route_detail(host: Seq<char>, path: Seq<char>, query: Seq<char>) -> Seq<
    char,
> {
    "No route matched for "@ + host + ", "@ + path + ", "@ + query
}

/// The error for a request that no route took.
pub open spec fn no_route_error(host: Seq<char>, path: Seq<char>, query: Seq<char>) -> ErrorView {
    ErrorView {
        description: "No route matched"@,
        body: Some(no_route_detail(host, path, query)),
        status: NOT_FOUND,
    }
}

/// The error that carries the message of a failed conversion, without detail.
pub open spec fn internal_error(message: Seq<char>) -> ErrorView {
    ErrorView { description: message, body: None, status: INTERNAL_SERVER_ERROR }
}

/// The error of a header map that cannot take another entry.
pub open spec fn capacity_error() -> ErrorView {
    internal_error("max size reached"@)
}

/// The error a result carries, if it is one.
pub open spec fn failure<T>(r: Result<T, MiddlewareError>) -> Option<ErrorView> {
    match r {
        Ok(_) => None,
        Err(e) => Some(e@),
    }
}

impl MiddlewareError {
    /// An error with the given message, detail and status.
    pub fn new(description: String, body: Option<String>, status: u16) -> (e: MiddlewareError)
        ensures
            e.description == description,
            e.body == body,
            e.status == status,
    {
        MiddlewareError { description, body, status }
    }

    /// The error for a request that a matching route's rule refused.
    pub fn unauthorized() -> (e: MiddlewareError)
        ensures
            e@ == unauthorized_error(),
    {
        MiddlewareError::new(
            String::from_str("Unauthorized"),
            Some(String::from_str("Unauthorized")),
            UNAUTHORIZED,
        )
    }

    /// The error for a request that no route took; the detail names the host,
    /// path and query that were tried.
    pub fn no_route(host: &str, path: &str, query: &str) -> (e: MiddlewareError)
        ensures
            e@ == no_route_error(host@, path@, query@),
    {
        let mut detail = String::from_str("No route matched for ");
        detail.append(host);
        detail.append(", ");
        detail.append(path);
        detail.append(", ");
        detail.append(query);
        MiddlewareError::new(String::from_str("No route matched"), Some(detail), NOT_FOUND)
    }

    /// The error for a conversion that failed with the given message.
    pub fn internal(message: String) -> (e: MiddlewareError)
        ensures
            e@ == internal_error(message@),
    {
        MiddlewareError::new(message, None, INTERNAL_SERVER_ERROR)
    }
}

} // verus!
