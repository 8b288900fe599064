//! The route table and the hook that rewrites a request's destination.
//!
//! A request is matched against the routes in table order. The first route
//! whose host pattern and path pattern both match decides where the request
//! goes; a route whose host pattern matches but whose rule refuses the request
//! ends the search with an error.

use crate::error::{
    capacity_error,
    failure,
    internal_error,
    no_route_error,
    unauthorized_error,
    ErrorView,
    MiddlewareError,
};
use crate::headers::{
    ascii_text,
    has_room,
    header_entries,
    header_value_bytes,
    header_map_clone,
    header_map_get,
    header_map_insert,
    header_value_from_str,
    header_value_to_str,
    is_header_name,
    is_header_value,
    is_visible_ascii,
};
use crate::message::{MiddlewareResult, Request, RequestView};
use crate::pattern::{
    pattern_is_valid,
    pattern_matches,
    pattern_replaced,
    regex_compiles,
    regex_is_match,
    regex_replace,
};
use crate::uri::{
    parse_authority,
    parse_path_and_query,
    parsed_authority,
    parsed_path_and_query,
    AuthorityView,
    Uri,
    UriView,
};
use http::header::{HeaderMap, HeaderValue};
use vstd::prelude::*;
use vstd::string::*;
use vstd::utf8::encode_utf8;

verus! {

/// The patterns a route matches a request against.
#[derive(Debug, Clone)]
pub struct RouteRegex {
    pub host: String,
    pub path: String,
}

/// The templates a route builds the new destination from. A template may
/// refer to the capture groups of the pattern it belongs to.
#[derive(Debug, Clone)]
pub struct RouteString {
    pub host: String,
    pub path: String,
}

/// One rule of the table: patterns, templates, and the predicate that says
/// whether a request may take the route.
#[derive(Clone)]
pub struct Route<F> {
    pub from: RouteRegex,
    pub to: RouteString,
    pub rule: F,
}

/// The routes of a table, in the order they are tried.
pub type RouterRules<F> = Vec<Route<F>>;

/// A table of routes, as configuration hands it over.
#[derive(Clone)]
pub struct RouterRulesWrapper<F> {
    pub rules: RouterRules<F>,
}

/// The hook that routes requests by an ordered table. Its patterns compile
/// and its rules are predicates.
pub struct Router<F: Fn(&Request) -> bool> {
    routes: RouterRules<F>,
}

/// What the table says of a request.
#[derive(Debug, Clone, PartialEq, Eq)]
pub enum Decision {
    /// A route's host pattern matched and its rule refused the request.
    Unauthorized,
    /// No route matched on both host and path.
    NoRoute,
    /// A route took the request: the host and path to send it to.
    Rewrite { host: String, path: String },
}

/// A decision, with the host and path as sequences of characters.
pub enum DecisionView {
    Unauthorized,
    NoRoute,
    Rewrite { host: Seq<char>, path: Seq<char> },
}

impl View for Decision {
    type V = DecisionView;

    open spec fn view(&self) -> DecisionView {
        match *self {
            Decision::Unauthorized => DecisionView::Unauthorized,
            Decision::NoRoute => DecisionView::NoRoute,
            Decision::Rewrite { host, path } => DecisionView::Rewrite { host: host@, path: path@ },
        }
    }
}

/// Whether the rule lets the request pass.
pub open spec fn rule_permits<F: Fn(&Request) -> bool>(rule: F, req: Request) -> bool {
    call_ensures(rule, (&req,), true)
}

/// The rule is a predicate: it can be called on every request, and what it
/// answers depends on the request alone.
pub open spec fn rule_is_predicate<F: Fn(&Request) -> bool>(rule: F) -> bool {
    forall|req: Request|
        #![trigger call_requires(rule, (&req,))]
        #![trigger call_ensures(rule, (&req,), true)]
        #![trigger call_ensures(rule, (&req,), false)]
        call_requires(rule, (&req,)) && !(call_ensures(rule, (&req,), true) && call_ensures(
            rule,
            (&req,),
            false,
        ))
}

/// Every rule of the table is a predicate.
pub open spec fn rules_are_predicates<F: Fn(&Request) -> bool>(routes: Seq<Route<F>>) -> bool {
    forall|i: int| 0 <= i < routes.len() ==> rule_is_predicate(#[trigger] routes[i].rule)
}

/// Every pattern of the table compiles.
pub open spec fn patterns_are_valid<F>(routes: Seq<Route<F>>) -> bool {
    forall|i: int|
        0 <= i < routes.len() ==> pattern_is_valid((#[trigger] routes[i]).from.host@)
            && pattern_is_valid(routes[i].from.path@)
}

/// The host a request is matched by: the host of the URI's authority where
/// the URI has one, else the text of the first `Host` header, else nothing.
/// A `Host` header that is not printable ASCII gives the error's message.
pub open spec fn request_host(req: RequestView) -> Result<Seq<char>, Seq<char>> {
    match req.uri.authority {
        Some(authority) => Ok(authority.host),
        None => if req.headers.contains_key("host"@) {
            if is_visible_ascii(req.headers["host"@][0]) {
                Ok(ascii_text(req.headers["host"@][0]))
            } else {
                Err("failed to convert header to a str"@)
            }
        } else {
            Ok(Seq::empty())
        },
    }
}

/// The path of the request's URI; empty where the URI has none.
pub open spec fn request_path(uri: UriView) -> Seq<char> {
    match uri.path_and_query {
        Some(p) => p.path,
        None => Seq::empty(),
    }
}

/// The query of the request's URI; empty where the URI has none.
pub open spec fn request_query(uri: UriView) -> Seq<char> {
    match uri.path_and_query {
        Some(p) => match p.query {
            Some(q) => q,
            None => Seq::empty(),
        },
        None => Seq::empty(),
    }
}

/// The path with `?` and the query behind it, or the path alone where the
/// query is empty.
pub open spec fn with_query(path: Seq<char>, query: Seq<char>) -> Seq<char> {
    if query.len() == 0 {
        path
    } else {
        path + "?"@ + query
    }
}

/// What the routes from index `start` on say of a request with the given host
/// and path.
pub open spec fn decide_from<F: Fn(&Request) -> bool>(
    routes: Seq<Route<F>>,
    start: int,
    req: Request,
    host: Seq<char>,
    path: Seq<char>,
) -> DecisionView
    decreases routes.len() - start,
{
    if start < 0 || start >= routes.len() {
        DecisionView::NoRoute
    } else if !pattern_matches(routes[start].from.host@, host) {
        decide_from(routes, start + 1, req, host, path)
    } else if !rule_permits(routes[start].rule, req) {
        DecisionView::Unauthorized
    } else if !pattern_matches(routes[start].from.path@, path) {
        decide_from(routes, start + 1, req, host, path)
    } else {
        DecisionView::Rewrite {
            host: pattern_replaced(routes[start].from.host@, host, routes[start].to.host@),
            path: pattern_replaced(routes[start].from.path@, path, routes[start].to.path@),
        }
    }
}

/// What the table says of a request with the given host and path.
pub open spec fn decide<F: Fn(&Request) -> bool>(
    routes: Seq<Route<F>>,
    req: Request,
    host: Seq<char>,
    path: Seq<char>,
) -> DecisionView {
    decide_from(routes, 0, req, host, path)
}

/// The message of the first check that refuses a rewrite, if one does: the
/// old host and the new host must be header values, the new host an authority,
/// and the target a path with query.
pub open spec fn rewrite_failure(old_host: Seq<char>, host: Seq<char>, target: Seq<char>) -> Option<
    Seq<char>,
> {
    if !is_header_value(encode_utf8(old_host)) || !is_header_value(encode_utf8(host)) {
        Some("failed to parse header value"@)
    } else {
        match parsed_authority(host) {
            Err(message) => Some(message),
            Ok(_) => match parsed_path_and_query(target) {
                Err(message) => Some(message),
                Ok(_) => None,
            },
        }
    }
}

/// The request after a rewrite that no check refused: `X-Forwarded-Host`
/// holds the old host, `Host` the new one, and the URI is `http`, the new host
/// and the target.
pub open spec fn rewritten(
    pre: RequestView,
    old_host: Seq<char>,
    host: Seq<char>,
    target: Seq<char>,
) -> RequestView
    recommends
        rewrite_failure(old_host, host, target) is None,
{
    RequestView {
        method: pre.method,
        uri: UriView {
            scheme: Some("http"@),
            authority: Some(AuthorityView { text: host, host: parsed_authority(host)->Ok_0 }),
            path_and_query: Some(parsed_path_and_query(target)->Ok_0),
        },
        headers: pre.headers.insert("x-forwarded-host"@, seq![encode_utf8(old_host)]).insert(
            "host"@,
            seq![encode_utf8(host)],
        ),
    }
}

/// A target that is stored as it is written: not empty and without `#`.
pub open spec fn is_kept_as_written(target: Seq<char>) -> bool {
    target.len() > 0 && !target.contains('#')
}

/// How a rewrite ends. Where a check refuses it, it fails with that check's
/// message and the request is as before. Otherwise the request is rewritten.
/// Only a header map without room for two more names may refuse to grow: then
/// the rewrite fails and the request is as before.
pub open spec fn forwarded(
    pre: Request,
    old_host: Seq<char>,
    host: Seq<char>,
    target: Seq<char>,
    failure: Option<ErrorView>,
    post: Request,
) -> bool {
    match rewrite_failure(old_host, host, target) {
        Some(message) => failure == Some(internal_error(message)) && post == pre,
        None => {
            ||| {
                &&& failure is None
                &&& post@ == rewritten(pre@, old_host, host, target)
                &&& is_kept_as_written(target) ==> post@.uri.path_and_query->Some_0.text
                    == target
            }
            ||| failure == Some(capacity_error()) && post == pre && !has_room(pre@.headers, 2)
        },
    }
}

/// How routing a request ends, for a table and the request before and after.
pub open spec fn routed<F: Fn(&Request) -> bool>(
    routes: Seq<Route<F>>,
    pre: Request,
    failure: Option<ErrorView>,
    post: Request,
) -> bool {
    match request_host(pre@) {
        Err(message) => failure == Some(internal_error(message)) && post == pre,
        Ok(host) => match decide(routes, pre, host, request_path(pre@.uri)) {
            DecisionView::Unauthorized => failure == Some(unauthorized_error()) && post == pre,
            DecisionView::NoRoute => failure == Some(
                no_route_error(host, request_path(pre@.uri), request_query(pre@.uri)),
            ) && post == pre,
            DecisionView::Rewrite { host: to_host, path: to_path } => forwarded(
                pre,
                host,
                to_host,
                with_query(to_path, request_query(pre@.uri)),
                failure,
                post,
            ),
        },
    }
}

/// The rule that lets every request pass.
pub fn allow_all(req: &Request) -> (b: bool)
    ensures
        b,
{
    true
}

/// The host, path and query a request is routed by.
pub fn get_host_and_path_and_query(req: &Request) -> (r: Result<
    (String, String, String),
    MiddlewareError,
>)
    ensures
        match request_host(req@) {
            Ok(host) => r matches Ok(t) && t.0@ == host && t.1@ == request_path(req@.uri) && t.2@
                == request_query(req@.uri),
            Err(message) => r matches Err(e) && e@ == internal_error(message),
        },
{
    let (path, query) = match &req.uri.path_and_query {
        Some(p) => {
            let query = match &p.query {
                Some(q) => q.clone(),
                None => String::new(),
            };
            (p.path.clone(), query)
        },
        None => (String::new(), String::new()),
    };
    match &req.uri.authority {
        Some(authority) => Ok((authority.host.clone(), path, query)),
        None => {
            proof {
                lemma_header_names();
            }
            match header_map_get(&req.headers, "host") {
                Some(value) => match header_value_to_str(value) {
                    Ok(host) => Ok((host, path, query)),
                    Err(message) => Err(MiddlewareError::internal(message)),
                },
                None => Ok((String::new(), path, query)),
            }
        },
    }
}

/// The names of the headers that routing reads and writes are header names.
pub proof fn lemma_header_names()
    ensures
        is_header_name("host"@),
        is_header_name("x-forwarded-host"@),
{
    reveal_strlit("host");
    reveal_strlit("x-forwarded-host");
}

/// The path with the query behind it, as `with_query` says.
pub fn join_query(path: String, query: &str) -> (target: String)
    ensures
        target@ == with_query(path@, query@),
{
    if query.unicode_len() == 0 {
        path
    } else {
        let mut target = path;
        target.append("?");
        target.append(query);
        target
    }
}

/// Sends the request to `host` and `target`: sets `X-Forwarded-Host` to
/// `old_host` and `Host` to `host`, and replaces the URI. Nothing is changed
/// unless all of it can be.
pub fn forward(req: &mut Request, old_host: &str, host: &str, target: &str) -> (r: Result<
    (),
    MiddlewareError,
>)
    ensures
        forwarded(*old(req), old_host@, host@, target@, failure(r), *final(req)),
        rewrite_failure(old_host@, host@, target@) is None && has_room(old(req)@.headers, 2)
            ==> r is Ok,
{
    let forwarded_for = match header_value_from_str(old_host) {
        Ok(value) => value,
        Err(message) => {
            return Err(MiddlewareError::internal(message));
        },
    };
    let sent_to = match header_value_from_str(host) {
        Ok(value) => value,
        Err(message) => {
            return Err(MiddlewareError::internal(message));
        },
    };
    let authority = match parse_authority(host) {
        Ok(authority) => authority,
        Err(message) => {
            return Err(MiddlewareError::internal(message));
        },
    };
    let path_and_query = match parse_path_and_query(target) {
        Ok(path_and_query) => path_and_query,
        Err(message) => {
            return Err(MiddlewareError::internal(message));
        },
    };
    let staged = forwarding_headers(&req.headers, forwarded_for, sent_to);
    req.install(
        staged,
        Uri {
            scheme: Some(String::from_str("http")),
            authority: Some(authority),
            path_and_query: Some(path_and_query),
        },
    )
}

/// A copy of the headers in which `X-Forwarded-Host` holds the first value
/// and `Host` the second, or the message of the error where the copy cannot
/// grow.
fn forwarding_headers(
    headers: &HeaderMap<HeaderValue>,
    forwarded_for: HeaderValue,
    sent_to: HeaderValue,
) -> (r: Result<HeaderMap<HeaderValue>, String>)
    ensures
        r matches Ok(staged) ==> header_entries(staged) == header_entries(*headers).insert(
            "x-forwarded-host"@,
            seq![header_value_bytes(forwarded_for)],
        ).insert("host"@, seq![header_value_bytes(sent_to)]),
        r matches Err(message) ==> message@ == "max size reached"@,
        has_room(header_entries(*headers), 2) ==> r is Ok,
{
    proof {
        lemma_header_names();
    }
    let mut staged = header_map_clone(headers);
    match header_map_insert(&mut staged, "x-forwarded-host", forwarded_for) {
        Ok(()) => {},
        Err(message) => {
            return Err(message);
        },
    }
    match header_map_insert(&mut staged, "host", sent_to) {
        Ok(()) => {},
        Err(message) => {
            return Err(message);
        },
    }
    Ok(staged)
}

impl<F: Fn(&Request) -> bool> Router<F> {
    #[verifier::type_invariant]
    spec fn well_formed(self) -> bool {
        patterns_are_valid(self.routes@) && rules_are_predicates(self.routes@)
    }

    /// The routes, in the order they are tried.
    pub closed spec fn table(self) -> Seq<Route<F>> {
        self.routes@
    }

    /// A router over the given routes, whose patterns compile.
    pub fn new(routes: RouterRules<F>) -> (router: Self)
        requires
            patterns_are_valid(routes@),
            rules_are_predicates(routes@),
        ensures
            router.table() == routes@,
    {
        Router { routes }
    }

    /// A router over the given routes, or nothing where one of their patterns
    /// does not compile.
    pub fn try_new(routes: RouterRules<F>) -> (r: Option<Self>)
        requires
            rules_are_predicates(routes@),
        ensures
            r is Some <==> patterns_are_valid(routes@),
            r matches Some(router) ==> router.table() == routes@,
    {
        let mut i: usize = 0;
        while i < routes.len()
            invariant
                i <= routes.len(),
                forall|j: int|
                    0 <= j < i ==> pattern_is_valid((#[trigger] routes@[j]).from.host@)
                        && pattern_is_valid(routes@[j].from.path@),
            decreases routes.len() - i,
        {
            if !regex_compiles(routes[i].from.host.as_str()) || !regex_compiles(
                routes[i].from.path.as_str(),
            ) {
                return None;
            }
            i += 1;
        }
        Some(Router::new(routes))
    }

    /// The name the router is registered under.
    pub fn name() -> (name: String)
        ensures
            name@ == "Auth"@,
    {
        String::from_str("Auth")
    }

    /// What the table says of a request with the given host and path.
    pub fn route(&self, req: &Request, host: &str, path: &str) -> (d: Decision)
        ensures
            d@ == decide(self.table(), *req, host@, path@),
    {
        proof {
            use_type_invariant(self);
        }
        let mut i: usize = 0;
        while i < self.routes.len()
            invariant
                i <= self.routes.len(),
                patterns_are_valid(self.routes@),
                rules_are_predicates(self.routes@),
                decide_from(self.routes@, i as int, *req, host@, path@) == decide(
                    self.routes@,
                    *req,
                    host@,
                    path@,
                ),
            decreases self.routes.len() - i,
        {
            let route = &self.routes[i];
            if regex_is_match(route.from.host.as_str(), host) {
                if !(route.rule)(req) {
                    return Decision::Unauthorized;
                }
                let new_host = regex_replace(route.from.host.as_str(), host, route.to.host.as_str());
                if regex_is_match(route.from.path.as_str(), path) {
                    let new_path = regex_replace(
                        route.from.path.as_str(),
                        path,
                        route.to.path.as_str(),
                    );
                    return Decision::Rewrite { host: new_host, path: new_path };
                }
            }
            i += 1;
        }
        Decision::NoRoute
    }

    /// Routes the request: rewrites it for the first route that takes it, or
    /// fails and leaves it as it was.
    pub fn before_request(&mut self, req: &mut Request) -> (r: Result<
        MiddlewareResult,
        MiddlewareError,
    >)
        ensures
            final(self).table() == old(self).table(),
            r matches Ok(next) ==> next is Next,
            routed(old(self).table(), *old(req), failure(r), *final(req)),
    {
        let (host, path, query) = match get_host_and_path_and_query(req) {
            Ok(parts) => parts,
            Err(e) => {
                return Err(e);
            },
        };
        match self.route(req, host.as_str(), path.as_str()) {
            Decision::Unauthorized => Err(MiddlewareError::unauthorized()),
            Decision::NoRoute => Err(
                MiddlewareError::no_route(host.as_str(), path.as_str(), query.as_str()),
            ),
            Decision::Rewrite { host: new_host, path: new_path } => {
                let target = join_query(new_path, query.as_str());
                match forward(req, host.as_str(), new_host.as_str(), target.as_str()) {
                    Ok(()) => Ok(MiddlewareResult::Next),
                    Err(e) => Err(e),
                }
            },
        }
    }
}

impl<F: Fn(&Request) -> bool> Default for Router<F> {
    fn default() -> (router: Self)
        ensures
            router.table().len() == 0,
    {
        Router { routes: Vec::new() }
    }
}

/// The table that sends `/api/v0/add...` and `/` of any host to `to`, each
/// guarded by `rule`.
pub fn default_routes<F: Fn(&Request) -> bool + Copy>(to: &str, rule: F) -> (routes: RouterRules<F>)
    ensures
        routes@.len() == 2,
        routes@[0].from.host@ == "^(.*)$"@,
        routes@[0].from.path@ == "^/api/v0/add(.*)$"@,
        routes@[0].to.host@ == to@,
        routes@[0].to.path@ == "/api/v0/add"@,
        routes@[0].rule == rule,
        routes@[1].from.host@ == "^(.*)$"@,
        routes@[1].from.path@ == "^/$"@,
        routes@[1].to.host@ == to@,
        routes@[1].to.path@ == "/"@,
        routes@[1].rule == rule,
{
    let mut routes = Vec::new();
    routes.push(
        Route {
            from: RouteRegex {
                host: String::from_str("^(.*)$"),
                path: String::from_str("^/api/v0/add(.*)$"),
            },
            to: RouteString { host: String::from_str(to), path: String::from_str("/api/v0/add") },
            rule,
        },
    );
    routes.push(
        Route {
            from: RouteRegex { host: String::from_str("^(.*)$"), path: String::from_str("^/$") },
            to: RouteString { host: String::from_str(to), path: String::from_str("/") },
            rule,
        },
    );
    routes
}

/// Routes that cannot take a request are passed over: where every route from
/// `start` on either does not match the host, or permits the request and does
/// not match the path, those routes decide nothing.
pub proof fn lemma_no_route_from<F: Fn(&Request) -> bool>(
    routes: Seq<Route<F>>,
    start: int,
    req: Request,
    host: Seq<char>,
    path: Seq<char>,
)
    requires
        0 <= start,
        forall|i: int|
            start <= i < routes.len() && pattern_matches((#[trigger] routes[i]).from.host@, host)
                ==> rule_permits(routes[i].rule, req) && !pattern_matches(
                routes[i].from.path@,
                path,
            ),
    ensures
        decide_from(routes, start, req, host, path) == DecisionView::NoRoute,
    decreases routes.len() - start,
{
    if start < routes.len() {
        assert(pattern_matches(routes[start].from.host@, host) ==> rule_permits(
            routes[start].rule,
            req,
        ) && !pattern_matches(routes[start].from.path@, path));
        lemma_no_route_from(routes, start + 1, req, host, path);
    }
}

/// The routes before index `end` decide nothing where each of them either
/// does not match the host, or permits the request and does not match the
/// path: the decision is that of the routes from `end` on.
pub proof fn lemma_skip_to<F: Fn(&Request) -> bool>(
    routes: Seq<Route<F>>,
    start: int,
    end: int,
    req: Request,
    host: Seq<char>,
    path: Seq<char>,
)
    requires
        0 <= start <= end <= routes.len(),
        forall|j: int|
            start <= j < end && pattern_matches((#[trigger] routes[j]).from.host@, host)
                ==> rule_permits(routes[j].rule, req) && !pattern_matches(
                routes[j].from.path@,
                path,
            ),
    ensures
        decide_from(routes, start, req, host, path) == decide_from(routes, end, req, host, path),
    decreases end - start,
{
    if start < end {
        assert(pattern_matches(routes[start].from.host@, host) ==> rule_permits(
            routes[start].rule,
            req,
        ) && !pattern_matches(routes[start].from.path@, path));
        lemma_skip_to(routes, start + 1, end, req, host, path);
    }
}

/// A request that no route matches on both host and path, and that every
/// route matching its host permits, fails with "No route matched" and status
/// 404, and is left as it was.
pub proof fn lemma_unmatched_request_is_not_found<F: Fn(&Request) -> bool>(
    routes: Seq<Route<F>>,
    pre: Request,
    failure: Option<ErrorView>,
    post: Request,
)
    requires
        routed(routes, pre, failure, post),
        request_host(pre@) is Ok,
        forall|i: int|
            0 <= i < routes.len() && pattern_matches(
                (#[trigger] routes[i]).from.host@,
                request_host(pre@)->Ok_0,
            ) ==> rule_permits(routes[i].rule, pre) && !pattern_matches(
                routes[i].from.path@,
                request_path(pre@.uri),
            ),
    ensures
        failure == Some(
            no_route_error(
                request_host(pre@)->Ok_0,
                request_path(pre@.uri),
                request_query(pre@.uri),
            ),
        ),
        failure->Some_0.status == 404,
        post == pre,
{
    lemma_no_route_from(routes, 0, pre, request_host(pre@)->Ok_0, request_path(pre@.uri));
}

/// A request that reaches a route which matches its host and whose rule
/// refuses it fails with "Unauthorized" and status 401, and is left as it was,
/// whatever routes come after. A route is reached when each route before it
/// either does not match the host, or permits the request and does not match
/// the path.
pub proof fn lemma_refused_request_is_unauthorized<F: Fn(&Request) -> bool>(
    routes: Seq<Route<F>>,
    refusing: int,
    pre: Request,
    failure: Option<ErrorView>,
    post: Request,
)
    requires
        routed(routes, pre, failure, post),
        request_host(pre@) is Ok,
        0 <= refusing < routes.len(),
        pattern_matches(routes[refusing].from.host@, request_host(pre@)->Ok_0),
        !rule_permits(routes[refusing].rule, pre),
        forall|j: int|
            0 <= j < refusing && pattern_matches(
                (#[trigger] routes[j]).from.host@,
                request_host(pre@)->Ok_0,
            ) ==> rule_permits(routes[j].rule, pre) && !pattern_matches(
                routes[j].from.path@,
                request_path(pre@.uri),
            ),
    ensures
        failure == Some(unauthorized_error()),
        failure->Some_0.status == 401,
        post == pre,
{
    lemma_skip_to(routes, 0, refusing, pre, request_host(pre@)->Ok_0, request_path(pre@.uri));
}

/// After a rewrite that succeeded, `Host` holds the rewritten host and
/// nothing else, `X-Forwarded-Host` holds the host the request was matched by
/// and nothing else, and the URI is `http`, the rewritten host, and the
/// rewritten path with `?` and the request's query behind it where that query
/// is not empty. The last holds of a target that is stored as written, that
/// is, one that is not empty and has no `#`; the method is as before.
pub proof fn lemma_rewrite_sets_headers_and_target<F: Fn(&Request) -> bool>(
    routes: Seq<Route<F>>,
    pre: Request,
    post: Request,
)
    requires
        routed(routes, pre, None, post),
    ensures
        request_host(pre@) is Ok,
        decide(routes, pre, request_host(pre@)->Ok_0, request_path(pre@.uri)) is Rewrite,
        ({
            let host = request_host(pre@)->Ok_0;
            let to = decide(routes, pre, host, request_path(pre@.uri));
            let target = with_query(to->path, request_query(pre@.uri));
            &&& post@.headers.contains_key("host"@)
            &&& post@.headers["host"@] == seq![encode_utf8(to->host)]
            &&& post@.headers.contains_key("x-forwarded-host"@)
            &&& post@.headers["x-forwarded-host"@] == seq![encode_utf8(host)]
            &&& post@.uri.scheme == Some("http"@)
            &&& post@.uri.authority is Some
            &&& post@.uri.authority->Some_0.text == to->host
            &&& post@.uri.path_and_query is Some
            &&& is_kept_as_written(target) ==> post@.uri.path_and_query->Some_0.text == target
            &&& post@.method == pre@.method
        }),
{
    reveal_strlit("host");
    reveal_strlit("x-forwarded-host");
    assert("host"@.len() == 4);
    assert("x-forwarded-host"@.len() == 16);
}

/// Routing is a function of the table and the request. Two runs on the same
/// table, on requests that hold the same and that each rule answers alike,
/// end with the same error or with requests that hold the same. This holds
/// where the header map has room for two more names; where it has not, it
/// holds of runs in which the map did not refuse to grow.
pub proof fn lemma_routing_is_deterministic<F: Fn(&Request) -> bool>(
    routes: Seq<Route<F>>,
    first_pre: Request,
    first_failure: Option<ErrorView>,
    first_post: Request,
    second_pre: Request,
    second_failure: Option<ErrorView>,
    second_post: Request,
)
    requires
        routed(routes, first_pre, first_failure, first_post),
        routed(routes, second_pre, second_failure, second_post),
        first_pre@ == second_pre@,
        forall|i: int|
            0 <= i < routes.len() ==> rule_permits((#[trigger] routes[i]).rule, first_pre)
                == rule_permits(routes[i].rule, second_pre),
        has_room(first_pre@.headers, 2) || (first_failure != Some(capacity_error())
            && second_failure != Some(capacity_error())),
    ensures
        first_failure == second_failure,
        first_post@ == second_post@,
{
    if request_host(first_pre@) is Ok {
        lemma_same_decision(
            routes,
            0,
            first_pre,
            second_pre,
            request_host(first_pre@)->Ok_0,
            request_path(first_pre@.uri),
        );
    }
}

/// The table decides alike on two requests that each rule answers alike.
pub proof fn lemma_same_decision<F: Fn(&Request) -> bool>(
    routes: Seq<Route<F>>,
    start: int,
    first: Request,
    second: Request,
    host: Seq<char>,
    path: Seq<char>,
)
    requires
        0 <= start,
        forall|i: int|
            0 <= i < routes.len() ==> rule_permits((#[trigger] routes[i]).rule, first)
                == rule_permits(routes[i].rule, second),
    ensures
        decide_from(routes, start, first, host, path) == decide_from(
            routes,
            start,
            second,
            host,
            path,
        ),
    decreases routes.len() - start,
{
    if start < routes.len() {
        assert(rule_permits(routes[start].rule, first) == rule_permits(
            routes[start].rule,
            second,
        ));
        lemma_same_decision(routes, start + 1, first, second, host, path);
    }
}

} // verus!
