use http::header::{HeaderMap, HeaderValue};
use proxy::error::MiddlewareError;
use proxy::message::{MiddlewareResult, Request};
use proxy::router::{
    allow_all, default_routes, forward, get_host_and_path_and_query, join_query, Decision, Route,
    RouteRegex, RouteString, Router, RouterRulesWrapper,
};
use proxy::uri::{Authority, PathAndQuery, Uri};

type Rule = fn(&Request) -> bool;

fn deny_all(_req: &Request) -> bool {
    false
}

fn only_get(req: &Request) -> bool {
    req.method == "GET"
}

fn route(host: &str, path: &str, to_host: &str, to_path: &str, rule: Rule) -> Route<Rule> {
    Route {
        from: RouteRegex { host: host.to_string(), path: path.to_string() },
        to: RouteString { host: to_host.to_string(), path: to_path.to_string() },
        rule,
    }
}

fn request(method: &str, host: Option<&str>, target: &str) -> Request {
    let mut headers = HeaderMap::new();
    if let Some(host) = host {
        headers.insert("host", HeaderValue::from_str(host).unwrap());
    }
    Request {
        method: method.to_string(),
        uri: Uri {
            scheme: None,
            authority: None,
            path_and_query: Some(PathAndQuery::parse(target).unwrap()),
        },
        headers,
    }
}

fn default_router() -> Router<Rule> {
    Router::try_new(default_routes("backend:8080", allow_all as Rule)).unwrap()
}

fn header(req: &Request, name: &str) -> Vec<Vec<u8>> {
    req.headers.get_all(name).iter().map(|v| v.as_bytes().to_vec()).collect()
}

fn expect_error(r: Result<MiddlewareResult, MiddlewareError>) -> MiddlewareError {
    match r {
        Err(e) => e,
        Ok(_) => panic!("the request was routed"),
    }
}

#[test]
fn root_request_is_sent_to_the_backend() {
    let mut router = default_router();
    let mut req = request("GET", Some("example.com"), "/");
    let result = router.before_request(&mut req);
    assert!(matches!(result, Ok(MiddlewareResult::Next)));
    assert_eq!(req.uri.scheme.as_deref(), Some("http"));
    let authority = req.uri.authority.clone().unwrap();
    assert_eq!(authority.text, "backend:8080");
    let target = req.uri.path_and_query.clone().unwrap();
    assert_eq!(target.text, "/");
    assert_eq!(target.path, "/");
    assert_eq!(target.query, None);
    assert_eq!(header(&req, "host"), vec![b"backend:8080".to_vec()]);
    assert_eq!(header(&req, "x-forwarded-host"), vec![b"example.com".to_vec()]);
    assert_eq!(req.method, "GET");
}

#[test]
fn add_request_keeps_its_query() {
    let mut router = default_router();
    let mut req = request("GET", Some("example.com"), "/api/v0/add/123?x=1");
    let result = router.before_request(&mut req);
    assert!(matches!(result, Ok(MiddlewareResult::Next)));
    let target = req.uri.path_and_query.clone().unwrap();
    assert_eq!(target.text, "/api/v0/add?x=1");
    assert_eq!(target.path, "/api/v0/add");
    assert_eq!(target.query, Some("x=1".to_string()));
    assert_eq!(req.uri.authority.clone().unwrap().text, "backend:8080");
}

#[test]
fn unknown_path_is_not_found() {
    let mut router = default_router();
    let mut req = request("GET", Some("example.com"), "/unknown");
    let e = expect_error(router.before_request(&mut req));
    assert_eq!(e.status, 404);
    assert_eq!(e.description, "No route matched");
    assert_eq!(
        e.body,
        Some("No route matched for example.com, /unknown, ".to_string())
    );
    assert_eq!(req.uri.authority, None);
    assert_eq!(req.uri.path_and_query.clone().unwrap().text, "/unknown");
    assert_eq!(header(&req, "host"), vec![b"example.com".to_vec()]);
    assert!(req.headers.get("x-forwarded-host").is_none());
}

#[test]
fn not_found_detail_names_host_path_and_query() {
    let mut router = default_router();
    let mut req = request("GET", Some("example.com"), "/nowhere?a=b");
    let e = expect_error(router.before_request(&mut req));
    assert_eq!(
        e,
        MiddlewareError {
            description: "No route matched".to_string(),
            body: Some("No route matched for example.com, /nowhere, a=b".to_string()),
            status: 404,
        }
    );
}

#[test]
fn query_is_not_part_of_the_matched_path() {
    let mut router = default_router();
    let mut req = request("GET", Some("example.com"), "/?x=1");
    let result = router.before_request(&mut req);
    assert!(matches!(result, Ok(MiddlewareResult::Next)));
    assert_eq!(req.uri.path_and_query.clone().unwrap().text, "/?x=1");
}

#[test]
fn empty_table_takes_nothing() {
    let mut router: Router<Rule> = Router::default();
    let mut req = request("GET", Some("example.com"), "/");
    let e = expect_error(router.before_request(&mut req));
    assert_eq!(e.status, 404);
}

#[test]
fn refused_request_is_unauthorized() {
    let routes = vec![route("^(.*)$", "^/$", "backend", "/", deny_all as Rule)];
    let mut router = Router::try_new(routes).unwrap();
    let mut req = request("GET", Some("example.com"), "/");
    let e = expect_error(router.before_request(&mut req));
    assert_eq!(
        e,
        MiddlewareError {
            description: "Unauthorized".to_string(),
            body: Some("Unauthorized".to_string()),
            status: 401,
        }
    );
    assert_eq!(header(&req, "host"), vec![b"example.com".to_vec()]);
    assert_eq!(req.uri.authority, None);
}

#[test]
fn refusal_ends_the_search_before_a_later_match() {
    let routes = vec![
        route("^(.*)$", "^/private$", "backend", "/private", deny_all as Rule),
        route("^(.*)$", "^/$", "backend", "/", allow_all as Rule),
    ];
    let mut router = Router::try_new(routes).unwrap();
    let mut req = request("GET", Some("example.com"), "/");
    let e = expect_error(router.before_request(&mut req));
    assert_eq!(e.status, 401);
}

#[test]
fn rule_is_not_asked_where_the_host_does_not_match() {
    let routes = vec![
        route("^other\\.org$", "^/$", "backend", "/", deny_all as Rule),
        route("^example\\.com$", "^/$", "backend", "/", allow_all as Rule),
    ];
    let mut router = Router::try_new(routes).unwrap();
    let mut req = request("GET", Some("example.com"), "/");
    assert!(router.before_request(&mut req).is_ok());
    assert_eq!(header(&req, "host"), vec![b"backend".to_vec()]);
}

#[test]
fn rule_sees_the_request() {
    let routes = vec![route("^(.*)$", "^/$", "backend", "/", only_get as Rule)];
    let mut router = Router::try_new(routes).unwrap();
    let mut get = request("GET", Some("example.com"), "/");
    assert!(router.before_request(&mut get).is_ok());
    let mut post = request("POST", Some("example.com"), "/");
    assert_eq!(expect_error(router.before_request(&mut post)).status, 401);
}

#[test]
fn path_mismatch_goes_on_to_the_next_route() {
    let routes = vec![
        route("^(.*)$", "^/a$", "first", "/a", allow_all as Rule),
        route("^(.*)$", "^/b$", "second", "/b", allow_all as Rule),
    ];
    let mut router = Router::try_new(routes).unwrap();
    let mut req = request("GET", Some("example.com"), "/b");
    assert!(router.before_request(&mut req).is_ok());
    assert_eq!(req.uri.authority.clone().unwrap().text, "second");
}

#[test]
fn first_matching_route_wins() {
    let routes = vec![
        route("^(.*)$", "^/a", "first", "/one", allow_all as Rule),
        route("^(.*)$", "^/a$", "second", "/two", allow_all as Rule),
    ];
    let router = Router::try_new(routes).unwrap();
    let req = request("GET", Some("example.com"), "/a");
    assert_eq!(
        router.route(&req, "example.com", "/a"),
        Decision::Rewrite { host: "first".to_string(), path: "/one".to_string() }
    );
}

#[test]
fn route_reports_each_decision() {
    let routes = vec![
        route("^closed\\.org$", "^/$", "backend", "/", deny_all as Rule),
        route("^open\\.org$", "^/$", "backend", "/", allow_all as Rule),
    ];
    let router = Router::try_new(routes).unwrap();
    let req = request("GET", None, "/");
    assert_eq!(router.route(&req, "closed.org", "/"), Decision::Unauthorized);
    assert_eq!(router.route(&req, "open.org", "/else"), Decision::NoRoute);
    assert_eq!(router.route(&req, "none.org", "/"), Decision::NoRoute);
    assert_eq!(
        router.route(&req, "open.org", "/"),
        Decision::Rewrite { host: "backend".to_string(), path: "/".to_string() }
    );
}

#[test]
fn captures_fill_the_templates() {
    let routes = vec![route(
        "^(.*)\\.example\\.com$",
        "^/v1/(.*)$",
        "$1.internal",
        "/api/$1",
        allow_all as Rule,
    )];
    let mut router = Router::try_new(routes).unwrap();
    let mut req = request("GET", Some("shop.example.com"), "/v1/items?page=2");
    assert!(router.before_request(&mut req).is_ok());
    assert_eq!(req.uri.authority.clone().unwrap().text, "shop.internal");
    assert_eq!(req.uri.path_and_query.clone().unwrap().text, "/api/items?page=2");
    assert_eq!(header(&req, "host"), vec![b"shop.internal".to_vec()]);
    assert_eq!(header(&req, "x-forwarded-host"), vec![b"shop.example.com".to_vec()]);
}

#[test]
fn only_the_first_match_is_replaced() {
    let routes = vec![route("^(.*)$", "a", "backend", "b", allow_all as Rule)];
    let router = Router::try_new(routes).unwrap();
    let req = request("GET", None, "/");
    assert_eq!(
        router.route(&req, "h", "/aa"),
        Decision::Rewrite { host: "backend".to_string(), path: "/ba".to_string() }
    );
}

#[test]
fn uri_host_comes_before_the_host_header() {
    let mut req = request("GET", Some("header.example"), "/");
    req.uri.scheme = Some("http".to_string());
    req.uri.authority = Some(Authority::parse("user@uri.example:8080").unwrap());
    let (host, path, query) = get_host_and_path_and_query(&req).unwrap();
    assert_eq!(host, "uri.example");
    assert_eq!(path, "/");
    assert_eq!(query, "");
}

#[test]
fn host_header_is_used_without_an_authority() {
    let req = request("GET", Some("example.com:8080"), "/a/b?c=d&e=f");
    let (host, path, query) = get_host_and_path_and_query(&req).unwrap();
    assert_eq!(host, "example.com:8080");
    assert_eq!(path, "/a/b");
    assert_eq!(query, "c=d&e=f");
}

#[test]
fn first_host_header_is_used() {
    let mut req = request("GET", Some("first.example"), "/");
    req.headers.append("host", HeaderValue::from_static("second.example"));
    let (host, _, _) = get_host_and_path_and_query(&req).unwrap();
    assert_eq!(host, "first.example");
}

#[test]
fn missing_host_and_path_are_empty() {
    let req = Request {
        method: "GET".to_string(),
        uri: Uri { scheme: None, authority: None, path_and_query: None },
        headers: HeaderMap::new(),
    };
    let (host, path, query) = get_host_and_path_and_query(&req).unwrap();
    assert_eq!(host, "");
    assert_eq!(path, "");
    assert_eq!(query, "");
}

#[test]
fn host_header_that_is_not_text_is_an_error() {
    let mut req = request("GET", None, "/");
    req.headers.insert("host", HeaderValue::from_bytes(b"caf\xc3\xa9.example").unwrap());
    let e = get_host_and_path_and_query(&req).unwrap_err();
    assert_eq!(
        e,
        MiddlewareError {
            description: "failed to convert header to a str".to_string(),
            body: None,
            status: 500,
        }
    );
    let mut router = default_router();
    let e = expect_error(router.before_request(&mut req));
    assert_eq!(e.status, 500);
    assert_eq!(e.description, "failed to convert header to a str");
}

#[test]
fn forward_sets_headers_and_uri() {
    let mut req = request("GET", Some("old.example"), "/x");
    req.headers.append("host", HeaderValue::from_static("other.example"));
    req.headers.insert("accept", HeaderValue::from_static("*/*"));
    forward(&mut req, "old.example", "new.example:81", "/y?z=1").unwrap();
    assert_eq!(header(&req, "host"), vec![b"new.example:81".to_vec()]);
    assert_eq!(header(&req, "x-forwarded-host"), vec![b"old.example".to_vec()]);
    assert_eq!(header(&req, "accept"), vec![b"*/*".to_vec()]);
    assert_eq!(
        req.uri,
        Uri {
            scheme: Some("http".to_string()),
            authority: Some(Authority {
                text: "new.example:81".to_string(),
                host: "new.example".to_string(),
            }),
            path_and_query: Some(PathAndQuery {
                text: "/y?z=1".to_string(),
                path: "/y".to_string(),
                query: Some("z=1".to_string()),
            }),
        }
    );
}

#[test]
fn forward_drops_a_fragment() {
    let mut req = request("GET", Some("old.example"), "/x");
    forward(&mut req, "old.example", "new.example", "/y#part").unwrap();
    assert_eq!(req.uri.path_and_query.clone().unwrap().text, "/y");
}

#[test]
fn forward_refuses_a_control_character_in_the_old_host() {
    let mut req = request("GET", Some("old.example"), "/x");
    let e = forward(&mut req, "old\n.example", "new.example", "/y").unwrap_err();
    assert_eq!(
        e,
        MiddlewareError {
            description: "failed to parse header value".to_string(),
            body: None,
            status: 500,
        }
    );
    assert_eq!(header(&req, "host"), vec![b"old.example".to_vec()]);
    assert!(req.headers.get("x-forwarded-host").is_none());
    assert_eq!(req.uri.authority, None);
}

#[test]
fn forward_refuses_a_control_character_in_the_new_host() {
    let mut req = request("GET", Some("old.example"), "/x");
    let e = forward(&mut req, "old.example", "new\u{7f}.example", "/y").unwrap_err();
    assert_eq!(e.description, "failed to parse header value");
    assert!(req.headers.get("x-forwarded-host").is_none());
}

#[test]
fn forward_refuses_a_host_that_is_no_authority() {
    let mut req = request("GET", Some("old.example"), "/x");
    let e = forward(&mut req, "old.example", "new example", "/y").unwrap_err();
    assert_eq!(e.status, 500);
    assert_eq!(e.description, "invalid uri character");
    assert_eq!(e.body, None);
    assert_eq!(header(&req, "host"), vec![b"old.example".to_vec()]);
    assert!(req.headers.get("x-forwarded-host").is_none());
    assert_eq!(req.uri.path_and_query.clone().unwrap().text, "/x");
}

#[test]
fn forward_refuses_an_empty_host() {
    let mut req = request("GET", Some("old.example"), "/x");
    let e = forward(&mut req, "old.example", "", "/y").unwrap_err();
    assert_eq!(e.description, "empty string");
}

#[test]
fn forward_refuses_a_target_that_is_no_path() {
    let mut req = request("GET", Some("old.example"), "/x");
    let e = forward(&mut req, "old.example", "new.example", "/a b").unwrap_err();
    assert_eq!(e.status, 500);
    assert_eq!(e.description, "invalid uri character");
    assert_eq!(header(&req, "host"), vec![b"old.example".to_vec()]);
    assert_eq!(req.uri.authority, None);
}

#[test]
fn header_values_are_checked_before_the_uri() {
    let mut req = request("GET", Some("old.example"), "/x");
    let e = forward(&mut req, "old.example", "new\n example", "/a b").unwrap_err();
    assert_eq!(e.description, "failed to parse header value");
}

#[test]
fn malformed_rewrite_leaves_the_request_alone() {
    let routes = vec![route("^(.*)$", "^/$", "not a host", "/", allow_all as Rule)];
    let mut router = Router::try_new(routes).unwrap();
    let mut req = request("GET", Some("example.com"), "/");
    let e = expect_error(router.before_request(&mut req));
    assert_eq!(e.status, 500);
    assert_eq!(e.description, "invalid uri character");
    assert_eq!(header(&req, "host"), vec![b"example.com".to_vec()]);
    assert!(req.headers.get("x-forwarded-host").is_none());
}

#[test]
fn routing_twice_gives_the_same() {
    let mut router = default_router();
    let mut first = request("GET", Some("example.com"), "/api/v0/add?x=1");
    let mut second = request("GET", Some("example.com"), "/api/v0/add?x=1");
    assert!(router.before_request(&mut first).is_ok());
    assert!(router.before_request(&mut second).is_ok());
    assert_eq!(first.uri, second.uri);
    assert_eq!(first.headers, second.headers);
    let mut third = request("GET", Some("example.com"), "/missing");
    let mut fourth = request("GET", Some("example.com"), "/missing");
    assert_eq!(
        expect_error(router.before_request(&mut third)),
        expect_error(router.before_request(&mut fourth))
    );
}

#[test]
fn join_query_adds_a_question_mark_only_for_a_query() {
    assert_eq!(join_query("/a".to_string(), ""), "/a");
    assert_eq!(join_query("/a".to_string(), "b=c"), "/a?b=c");
    assert_eq!(join_query(String::new(), "b"), "?b");
}

#[test]
fn invalid_pattern_makes_no_router() {
    let bad_host = vec![route("(", "^/$", "backend", "/", allow_all as Rule)];
    assert!(Router::try_new(bad_host).is_none());
    let bad_path = vec![
        route("^(.*)$", "^/$", "backend", "/", allow_all as Rule),
        route("^(.*)$", "[", "backend", "/", allow_all as Rule),
    ];
    assert!(Router::try_new(bad_path).is_none());
}

#[test]
fn new_keeps_valid_routes() {
    let mut router = Router::new(default_routes("backend:8080", allow_all as Rule));
    let mut req = request("GET", Some("example.com"), "/");
    assert!(router.before_request(&mut req).is_ok());
}

#[test]
fn default_routes_are_the_two_rules() {
    let routes = default_routes("backend:8080", allow_all as Rule);
    assert_eq!(routes.len(), 2);
    assert_eq!(routes[0].from.host, "^(.*)$");
    assert_eq!(routes[0].from.path, "^/api/v0/add(.*)$");
    assert_eq!(routes[0].to.host, "backend:8080");
    assert_eq!(routes[0].to.path, "/api/v0/add");
    assert_eq!(routes[1].from.host, "^(.*)$");
    assert_eq!(routes[1].from.path, "^/$");
    assert_eq!(routes[1].to.host, "backend:8080");
    assert_eq!(routes[1].to.path, "/");
    let req = request("GET", None, "/");
    assert!((routes[0].rule)(&req));
    assert!(allow_all(&req));
}

#[test]
fn rules_wrapper_holds_the_rules() {
    let wrapper = RouterRulesWrapper { rules: default_routes("backend", allow_all as Rule) };
    assert_eq!(wrapper.clone().rules.len(), 2);
}

#[test]
fn router_is_named_auth() {
    assert_eq!(Router::<Rule>::name(), "Auth");
}

#[test]
fn errors_are_built_as_described() {
    assert_eq!(
        MiddlewareError::new("a".to_string(), Some("b".to_string()), 418),
        MiddlewareError { description: "a".to_string(), body: Some("b".to_string()), status: 418 }
    );
    assert_eq!(MiddlewareError::unauthorized().status, 401);
    assert_eq!(
        MiddlewareError::no_route("h", "/p", "q").body,
        Some("No route matched for h, /p, q".to_string())
    );
    assert_eq!(
        MiddlewareError::internal("broken".to_string()),
        MiddlewareError { description: "broken".to_string(), body: None, status: 500 }
    );
}

#[test]
fn authority_is_parsed_into_text_and_host() {
    assert_eq!(
        Authority::parse("user:pw@example.com:8080").unwrap(),
        Authority {
            text: "user:pw@example.com:8080".to_string(),
            host: "example.com".to_string(),
        }
    );
    assert_eq!(Authority::parse("[::1]:80").unwrap().host, "[::1]");
    assert_eq!(Authority::parse("a:b:c").unwrap_err().description, "invalid authority");
}

#[test]
fn path_and_query_is_parsed_into_its_parts() {
    assert_eq!(
        PathAndQuery::parse("/a/b?c=d").unwrap(),
        PathAndQuery {
            text: "/a/b?c=d".to_string(),
            path: "/a/b".to_string(),
            query: Some("c=d".to_string()),
        }
    );
    assert_eq!(PathAndQuery::parse("/a").unwrap().query, None);
    assert_eq!(PathAndQuery::parse("").unwrap().text, "/");
    assert_eq!(PathAndQuery::parse("/a\n").unwrap_err().status, 500);
}

#[test]
fn install_takes_staged_headers_and_uri() {
    let mut req = request("GET", Some("old.example"), "/x");
    let mut staged = HeaderMap::new();
    staged.insert("host", HeaderValue::from_static("new.example"));
    let uri = Uri {
        scheme: Some("http".to_string()),
        authority: Some(Authority::parse("new.example").unwrap()),
        path_and_query: Some(PathAndQuery::parse("/y").unwrap()),
    };
    assert_eq!(req.install(Ok(staged.clone()), uri.clone()), Ok(()));
    assert_eq!(req.headers, staged);
    assert_eq!(req.uri, uri);
    assert_eq!(req.method, "GET");
}

#[test]
fn install_fails_with_the_staging_error() {
    let mut req = request("GET", Some("old.example"), "/x");
    let before = req.uri.clone();
    let uri = Uri { scheme: None, authority: None, path_and_query: None };
    let e = req.install(Err("max size reached".to_string()), uri).unwrap_err();
    assert_eq!(
        e,
        MiddlewareError {
            description: "max size reached".to_string(),
            body: None,
            status: 500,
        }
    );
    assert_eq!(req.uri, before);
    assert_eq!(header(&req, "host"), vec![b"old.example".to_vec()]);
}

#[test]
fn full_header_map_fails_the_rewrite() {
    let mut req = request("GET", Some("example.com"), "/");
    let mut i: u32 = 0;
    loop {
        let name = http::header::HeaderName::from_bytes(format!("x-fill-{}", i).as_bytes()).unwrap();
        if req.headers.try_insert(name, HeaderValue::from_static("v")).is_err() {
            break;
        }
        i += 1;
    }
    let held = req.headers.len();
    let mut router = default_router();
    let e = expect_error(router.before_request(&mut req));
    assert_eq!(
        e,
        MiddlewareError {
            description: "max size reached".to_string(),
            body: None,
            status: 500,
        }
    );
    assert_eq!(req.headers.len(), held);
    assert_eq!(header(&req, "host"), vec![b"example.com".to_vec()]);
    assert!(req.headers.get("x-forwarded-host").is_none());
    assert_eq!(req.uri.authority, None);
}

fn fill(headers: &mut HeaderMap, names: usize) {
    let mut i: usize = 0;
    while headers.keys_len() < names {
        let name = http::header::HeaderName::from_bytes(format!("x-fill-{}", i).as_bytes()).unwrap();
        headers.insert(name, HeaderValue::from_static("v"));
        i += 1;
    }
}

#[test]
fn rewrite_succeeds_while_the_header_map_has_room() {
    let mut req = request("GET", Some("example.com"), "/");
    fill(&mut req.headers, 6552);
    assert_eq!(req.headers.keys_len(), 6552);
    let mut router = default_router();
    assert!(matches!(router.before_request(&mut req), Ok(MiddlewareResult::Next)));
    assert_eq!(req.headers.keys_len(), 6553);
    assert_eq!(header(&req, "host"), vec![b"backend:8080".to_vec()]);
    assert_eq!(header(&req, "x-forwarded-host"), vec![b"example.com".to_vec()]);
}

#[test]
fn rewrite_succeeds_in_a_map_made_at_its_largest() {
    let mut req = request("GET", Some("example.com"), "/");
    let mut headers = HeaderMap::with_capacity(24576);
    headers.insert("host", HeaderValue::from_static("example.com"));
    fill(&mut headers, 6552);
    req.headers = headers;
    assert!(forward(&mut req, "example.com", "backend", "/").is_ok());
    assert_eq!(req.headers.keys_len(), 6553);
    assert_eq!(header(&req, "host"), vec![b"backend".to_vec()]);
}
