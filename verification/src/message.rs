//! Requests and responses as the middleware hooks see them.

use crate::error::{internal_error, MiddlewareError};
use crate::headers::{header_entries, header_map_new};
use crate::uri::{Uri, UriView};
use http::header::{HeaderMap, HeaderValue};
use vstd::prelude::*;
use vstd::string::*;

verus! {

/// Status of a response made with [`Response::new`].
pub const OK: u16 = 200;

/// An inbound request: method, target and headers.
#[derive(Debug)]
pub struct Request {
    pub method: String,
    pub uri: Uri,
    pub headers: HeaderMap<HeaderValue>,
}

/// A response: status, headers and body.
#[derive(Debug)]
pub struct Response {
    pub status: u16,
    pub headers: HeaderMap<HeaderValue>,
    pub body: Vec<u8>,
}

/// What a hook asks the chain to do next.
#[derive(Debug)]
pub enum MiddlewareResult {
    /// Answer with this response; the request is not forwarded.
    RespondWith(Response),
    /// Go on with the next hook.
    Next,
}

/// A request, with its texts as sequences of characters and its headers as
/// what the header map holds.
pub struct RequestView {
    pub method: Seq<char>,
    pub uri: UriView,
    pub headers: Map<Seq<char>, Seq<Seq<u8>>>,
}

/// A response, with its headers as what the header map holds.
pub struct ResponseView {
    pub status: u16,
    pub headers: Map<Seq<char>, Seq<Seq<u8>>>,
    pub body: Seq<u8>,
}

impl View for Request {
    type V = RequestView;

    open spec fn view(&self) -> RequestView {
        RequestView {
            method: self.method@,
            uri: self.uri@,
            headers: header_entries(self.headers),
        }
    }
}

impl View for Response {
    type V = ResponseView;

    open spec fn view(&self) -> ResponseView {
        ResponseView {
            status: self.status,
            headers: header_entries(self.headers),
            body: self.body@,
        }
    }
}

impl Request {
    /// Ends a rewrite whose new headers were built aside. Where they could be
    /// built, the request takes them and the URI. Where they could not, the
    /// request stays as it was and the call fails with the message given.
    pub fn install(&mut self, staged: Result<HeaderMap<HeaderValue>, String>, uri: Uri) -> (r:
        Result<(), MiddlewareError>)
        ensures
            match staged {
                Ok(headers) => r is Ok && *final(self) == (Request {
                    method: old(self).method,
                    uri,
                    headers,
                }),
                Err(message) => r matches Err(e) && e@ == internal_error(message@) && *final(self)
                    == *old(self),
            },
    {
        match staged {
            Ok(headers) => {
                self.headers = headers;
                self.uri = uri;
                Ok(())
            },
            Err(message) => Err(MiddlewareError::internal(message)),
        }
    }
}

impl Response {
    /// A response with status 200, no headers and the given body.
    pub fn new(body: Vec<u8>) -> (r: Response)
        ensures
            r@ == (ResponseView { status: OK, headers: Map::empty(), body: body@ }),
    {
        Response { status: OK, headers: header_map_new(), body }
    }

    /// Ends a change of headers that were built aside. Where they could be
    /// built, the response takes them. Where they could not, the response
    /// stays as it was and the call fails with the message given.
    pub fn install(&mut self, staged: Result<HeaderMap<HeaderValue>, String>) -> (r: Result<
        (),
        MiddlewareError,
    >)
        ensures
            match staged {
                Ok(headers) => r is Ok && *final(self) == (Response {
                    status: old(self).status,
                    headers,
                    body: old(self).body,
                }),
                Err(message) => r matches Err(e) && e@ == internal_error(message@) && *final(self)
                    == *old(self),
            },
    {
        match staged {
            Ok(headers) => {
                self.headers = headers;
                Ok(())
            },
            Err(message) => Err(MiddlewareError::internal(message)),
        }
    }
}

} // verus!
