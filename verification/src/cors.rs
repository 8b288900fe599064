//! The filter that answers preflight requests and adds cross-origin headers
//! to responses.

use crate::error::{capacity_error, failure, ErrorView, MiddlewareError};
use crate::headers::{
    has_room,
    header_entries,
    header_map_clone,
    header_map_insert,
    header_value_from_static,
    is_header_name,
    is_visible_ascii,
    is_visible_byte,
};
use crate::message::{MiddlewareResult, Request, Response, ResponseView, OK};
use http::header::{HeaderMap, HeaderValue};
use vstd::prelude::*;
use vstd::string::*;
use vstd::utf8::{encode_utf8, is_ascii_chars_encode_utf8};

verus! {

/// The three header values the filter sends, fixed when it is made.
pub struct Cors {
    allow_origin: &'static str,
    allow_methods: &'static str,
    allow_headers: &'static str,
}

/// The headers with the three cross-origin headers set to the given values.
pub open spec fn with_cors_headers(
    headers: Map<Seq<char>, Seq<Seq<u8>>>,
    origin: Seq<char>,
    methods: Seq<char>,
    allowed: Seq<char>,
) -> Map<Seq<char>, Seq<Seq<u8>>> {
    headers.insert("access-control-allow-origin"@, seq![encode_utf8(origin)]).insert(
        "access-control-allow-methods"@,
        seq![encode_utf8(methods)],
    ).insert("access-control-allow-headers"@, seq![encode_utf8(allowed)])
}

/// Whether every byte of the text is printable ASCII or a tab.
pub fn is_visible_text(text: &str) -> (b: bool)
    ensures
        b == is_visible_ascii(encode_utf8(text@)),
{
    let bytes = text.as_bytes();
    let mut i: usize = 0;
    while i < bytes.len()
        invariant
            i <= bytes@.len(),
            bytes@ == encode_utf8(text@),
            forall|j: int| 0 <= j < i ==> is_visible_byte(#[trigger] bytes@[j]),
        decreases bytes@.len() - i,
    {
        let b = bytes[i];
        if !((b >= 32 && b < 127) || b == 9) {
            return false;
        }
        i += 1;
    }
    true
}

impl Cors {
    /// The value sent as `Access-Control-Allow-Origin`.
    pub closed spec fn origin(&self) -> Seq<char> {
        self.allow_origin@
    }

    /// The value sent as `Access-Control-Allow-Methods`.
    pub closed spec fn methods(&self) -> Seq<char> {
        self.allow_methods@
    }

    /// The value sent as `Access-Control-Allow-Headers`.
    pub closed spec fn headers(&self) -> Seq<char> {
        self.allow_headers@
    }

    /// The three values can be sent as header values: each is printable ASCII,
    /// tabs allowed.
    pub open spec fn is_valid(&self) -> bool {
        &&& is_visible_ascii(encode_utf8(self.origin()))
        &&& is_visible_ascii(encode_utf8(self.methods()))
        &&& is_visible_ascii(encode_utf8(self.headers()))
    }

    /// The response with the three headers set. Only a header map without
    /// room for three more names may refuse to grow: then the response is as
    /// it was.
    pub open spec fn decorated(&self, pre: Response, failure: Option<ErrorView>, post: Response) -> bool {
        ||| {
            &&& failure is None
            &&& post@ == (ResponseView {
                headers: with_cors_headers(
                    pre@.headers,
                    self.origin(),
                    self.methods(),
                    self.headers(),
                ),
                ..pre@
            })
        }
        ||| failure == Some(capacity_error()) && post == pre && !has_room(pre@.headers, 3)
    }

    /// The response to a preflight request: status 200, the three headers,
    /// and no body.
    pub open spec fn preflight_response(&self) -> ResponseView {
        ResponseView {
            status: OK,
            headers: with_cors_headers(
                Map::empty(),
                self.origin(),
                self.methods(),
                self.headers(),
            ),
            body: Seq::empty(),
        }
    }

    /// A filter that sends the given values.
    pub fn new(
        allow_origin: &'static str,
        allow_methods: &'static str,
        allow_headers: &'static str,
    ) -> (cors: Self)
        ensures
            cors.origin() == allow_origin@,
            cors.methods() == allow_methods@,
            cors.headers() == allow_headers@,
    {
        Cors { allow_origin, allow_methods, allow_headers }
    }

    /// Whether the three values can be sent as header values.
    pub fn has_valid_values(&self) -> (b: bool)
        ensures
            b == self.is_valid(),
    {
        is_visible_text(self.allow_origin) && is_visible_text(self.allow_methods)
            && is_visible_text(self.allow_headers)
    }

    /// Sets the three headers on the response. The response is changed only
    /// if all three can be set.
    pub fn set_cors_headers(&self, response: &mut Response) -> (r: Result<(), MiddlewareError>)
        requires
            self.is_valid(),
        ensures
            self.decorated(*old(response), failure(r), *final(response)),
            has_room(old(response)@.headers, 3) ==> r is Ok,
    {
        let staged = self.decorated_headers(&response.headers);
        response.install(staged)
    }

    /// A copy of the headers with the three headers set, or the message of
    /// the error where the copy cannot grow.
    fn decorated_headers(&self, headers: &HeaderMap<HeaderValue>) -> (r: Result<
        HeaderMap<HeaderValue>,
        String,
    >)
        requires
            self.is_valid(),
        ensures
            r matches Ok(staged) ==> header_entries(staged) == with_cors_headers(
                header_entries(*headers),
                self.origin(),
                self.methods(),
                self.headers(),
            ),
            r matches Err(message) ==> message@ == "max size reached"@,
            has_room(header_entries(*headers), 3) ==> r is Ok,
    {
        proof {
            lemma_cors_header_names();
        }
        let mut staged = header_map_clone(headers);
        match header_map_insert(
            &mut staged,
            "access-control-allow-origin",
            header_value_from_static(self.allow_origin),
        ) {
            Ok(()) => {},
            Err(message) => {
                return Err(message);
            },
        }
        match header_map_insert(
            &mut staged,
            "access-control-allow-methods",
            header_value_from_static(self.allow_methods),
        ) {
            Ok(()) => {},
            Err(message) => {
                return Err(message);
            },
        }
        match header_map_insert(
            &mut staged,
            "access-control-allow-headers",
            header_value_from_static(self.allow_headers),
        ) {
            Ok(()) => {},
            Err(message) => {
                return Err(message);
            },
        }
        Ok(staged)
    }

    /// The name the filter is registered under.
    pub fn name() -> (name: String)
        ensures
            name@ == "Cors"@,
    {
        String::from_str("Cors")
    }

    /// Answers an `OPTIONS` request at once, with an empty response that
    /// carries the three headers; lets any other request go on.
    pub fn before_request(&mut self, req: &mut Request) -> (r: Result<
        MiddlewareResult,
        MiddlewareError,
    >)
        requires
            old(req).method@ == "OPTIONS"@ ==> old(self).is_valid(),
        ensures
            *final(self) == *old(self),
            *final(req) == *old(req),
            old(req).method@ != "OPTIONS"@ ==> (r matches Ok(next) && next is Next),
            old(req).method@ == "OPTIONS"@ ==> (r matches Ok(MiddlewareResult::RespondWith(res))
                && res@ == old(self).preflight_response()),
    {
        if req.method == String::from_str("OPTIONS") {
            let mut response = Response::new(Vec::new());
            match self.set_cors_headers(&mut response) {
                Ok(()) => Ok(MiddlewareResult::RespondWith(response)),
                Err(e) => Err(e),
            }
        } else {
            Ok(MiddlewareResult::Next)
        }
    }

    /// Sets the three headers on the response, where there is one, and lets
    /// the chain go on.
    pub fn after_request(&mut self, response: Option<&mut Response>) -> (r: Result<
        MiddlewareResult,
        MiddlewareError,
    >)
        requires
            response is Some ==> old(self).is_valid(),
        ensures
            *final(self) == *old(self),
            r matches Ok(next) ==> next is Next,
            response is None ==> r is Ok,
            response matches Some(res) ==> old(self).decorated(*res, failure(r), *final(res)),
            response matches Some(res) ==> (has_room(res@.headers, 3) ==> r is Ok),
    {
        match response {
            Some(res) => match self.set_cors_headers(res) {
                Ok(()) => Ok(MiddlewareResult::Next),
                Err(e) => Err(e),
            },
            None => Ok(MiddlewareResult::Next),
        }
    }
}

/// The filter with the values the proxy is started with: any origin, the
/// methods `GET, POST, PUT, DELETE, OPTIONS`, and the headers
/// `Content-Type, Authorization`.
pub fn default_cors() -> (cors: Cors)
    ensures
        cors.origin() == "*"@,
        cors.methods() == "GET, POST, PUT, DELETE, OPTIONS"@,
        cors.headers() == "Content-Type, Authorization"@,
        cors.is_valid(),
{
    proof {
        reveal_strlit("*");
        reveal_strlit("GET, POST, PUT, DELETE, OPTIONS");
        reveal_strlit("Content-Type, Authorization");
        is_ascii_chars_encode_utf8("*"@);
        is_ascii_chars_encode_utf8("GET, POST, PUT, DELETE, OPTIONS"@);
        is_ascii_chars_encode_utf8("Content-Type, Authorization"@);
    }
    Cors::new("*", "GET, POST, PUT, DELETE, OPTIONS", "Content-Type, Authorization")
}

/// The names of the three cross-origin headers are header names.
pub proof fn lemma_cors_header_names()
    ensures
        is_header_name("access-control-allow-origin"@),
        is_header_name("access-control-allow-methods"@),
        is_header_name("access-control-allow-headers"@),
{
    reveal_strlit("access-control-allow-origin");
    reveal_strlit("access-control-allow-methods");
    reveal_strlit("access-control-allow-headers");
}

} // verus!
