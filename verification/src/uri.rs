//! The target of a request: scheme, authority, and path with query.
//!
//! A `Uri` here is plain data. Whether a text is an authority or a path with
//! query, and which parts it has, is decided by the `http` crate.

use crate::error::{internal_error, MiddlewareError};
use vstd::prelude::*;
use vstd::string::*;

verus! {

/// The authority of a URI: the text as written, and the host named in it
/// (without user information and port).
#[derive(Debug, Clone, PartialEq, Eq)]
pub struct Authority {
    pub text: String,
    pub host: String,
}

/// The path and query of a URI: the text as written, the path before the
/// first `?`, and the query after it where there is one.
#[derive(Debug, Clone, PartialEq, Eq)]
pub struct PathAndQuery {
    pub text: String,
    pub path: String,
    pub query: Option<String>,
}

/// A URI by its parts, each of which may be absent.
#[derive(Debug, Clone, PartialEq, Eq)]
pub struct Uri {
    pub scheme: Option<String>,
    pub authority: Option<Authority>,
    pub path_and_query: Option<PathAndQuery>,
}

/// An authority, with its texts as sequences of characters.
pub struct AuthorityView {
    pub text: Seq<char>,
    pub host: Seq<char>,
}

/// A path with query, with its texts as sequences of characters.
pub struct PathAndQueryView {
    pub text: Seq<char>,
    pub path: Seq<char>,
    pub query: Option<Seq<char>>,
}

/// A URI, with its texts as sequences of characters.
pub struct UriView {
    pub scheme: Option<Seq<char>>,
    pub authority: Option<AuthorityView>,
    pub path_and_query: Option<PathAndQueryView>,
}

/// The characters of an optional string.
pub open spec fn text_of(s: Option<String>) -> Option<Seq<char>> {
    match s {
        Some(s) => Some(s@),
        None => None,
    }
}

impl View for Authority {
    type V = AuthorityView;

    open spec fn view(&self) -> AuthorityView {
        AuthorityView { text: self.text@, host: self.host@ }
    }
}

impl View for PathAndQuery {
    type V = PathAndQueryView;

    open spec fn view(&self) -> PathAndQueryView {
        PathAndQueryView { text: self.text@, path: self.path@, query: text_of(self.query) }
    }
}

impl View for Uri {
    type V = UriView;

    open spec fn view(&self) -> UriView {
        UriView {
            scheme: text_of(self.scheme),
            authority: match self.authority {
                Some(a) => Some(a@),
                None => None,
            },
            path_and_query: match self.path_and_query {
                Some(p) => Some(p@),
                None => None,
            },
        }
    }
}

/// What parsing a text as an authority gives: the host it names, or the
/// message of the error that rejects it.
pub uninterp spec fn parsed_authority(text: Seq<char>) -> Result<Seq<char>, Seq<char>>;

/// What parsing a text as a path with query gives: the parts that are kept, or
/// the message of the error that rejects it.
pub uninterp spec fn parsed_path_and_query(text: Seq<char>) -> Result<
    PathAndQueryView,
    Seq<char>,
>;

/// `Authority::from_str`, then `Authority::as_str` and `Authority::host` on
/// the result. The authority keeps the whole text it was parsed from. The host
/// and the error message are whatever `http` computes from the text.
#[verifier::external_body]
pub(crate) fn parse_authority(text: &str) -> (r: Result<Authority, String>)
    ensures
        r matches Ok(a) ==> a.text@ == text@ && (parsed_authority(text@) matches Ok(host)
            && host == a.host@),
        r matches Err(m) ==> (parsed_authority(text@) matches Err(message) && message == m@),
{
    match text.parse::<http::uri::Authority>() {
        Ok(a) => Ok(Authority { text: a.as_str().to_string(), host: a.host().to_string() }),
        Err(e) => Err(e.to_string()),
    }
}

/// `PathAndQuery::from_str`, then `as_str`, `path` and `query` on the result.
/// Which texts are accepted and how they split is whatever `http` computes. A
/// text that is not empty and holds no `#` is kept as written: what is dropped
/// is a fragment, and an empty path is written `/`.
#[verifier::external_body]
pub(crate) fn parse_path_and_query(text: &str) -> (r: Result<PathAndQuery, String>)
    ensures
        r matches Ok(p) ==> (parsed_path_and_query(text@) matches Ok(parts) && parts == p@),
        r matches Ok(p) ==> (text@.len() > 0 && !text@.contains('#') ==> p.text@ == text@),
        r matches Err(m) ==> (parsed_path_and_query(text@) matches Err(message) && message
            == m@),
{
    match text.parse::<http::uri::PathAndQuery>() {
        Ok(p) => Ok(
            PathAndQuery {
                text: p.as_str().to_string(),
                path: p.path().to_string(),
                query: match p.query() {
                    Some(q) => Some(q.to_string()),
                    None => None,
                },
            },
        ),
        Err(e) => Err(e.to_string()),
    }
}

impl Authority {
    /// The authority that the text spells, or the error that rejects it.
    pub fn parse(text: &str) -> (r: Result<Authority, MiddlewareError>)
        ensures
            match parsed_authority(text@) {
                Ok(host) => r matches Ok(a) && a@ == (AuthorityView { text: text@, host }),
                Err(message) => r matches Err(e) && e@ == internal_error(message),
            },
    {
        match parse_authority(text) {
            Ok(authority) => Ok(authority),
            Err(message) => Err(MiddlewareError::internal(message)),
        }
    }
}

impl PathAndQuery {
    /// The path and query that the text spells, or the error that rejects it.
    pub fn parse(text: &str) -> (r: Result<PathAndQuery, MiddlewareError>)
        ensures
            match parsed_path_and_query(text@) {
                Ok(parts) => r matches Ok(p) && p@ == parts,
                Err(message) => r matches Err(e) && e@ == internal_error(message),
            },
            r matches Ok(p) ==> (text@.len() > 0 && !text@.contains('#') ==> p.text@ == text@),
    {
        match parse_path_and_query(text) {
            Ok(path_and_query) => Ok(path_and_query),
            Err(message) => Err(MiddlewareError::internal(message)),
        }
    }
}

} // verus!
