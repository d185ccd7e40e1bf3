use symproxy::{
    resolve, target_url, Action, CacheConfig, ErrorKind, Event, Origin, ProxyHandler, RequestKey,
    UpstreamDescriptor,
};

fn key() -> RequestKey {
    RequestKey::new("foo".to_string(), "ABCD1234".to_string(), "foo.pdb".to_string())
}

fn explicit(url: &str) -> UpstreamDescriptor {
    UpstreamDescriptor::explicit(url, None).unwrap()
}

fn fetch_url(a: &Action) -> String {
    match a {
        Action::Fetch { url, .. } => url.clone(),
        other => panic!("expected a fetch, got {:?}", other),
    }
}

#[test]
fn single_upstream_success_is_passed_through() {
    let (mut h, a) = ProxyHandler::start(vec![explicit("https://sym.example.com/")], key(), false);
    assert_eq!(fetch_url(&a), "https://sym.example.com/foo/ABCD1234/foo.pdb");
    let a = h.handle(Event::Responded { status: 200, content_length: Some(7) });
    assert!(matches!(a, Action::Passthrough));
}

#[test]
fn fallback_goes_on_after_not_found_in_order() {
    let servers = vec![explicit("https://first.example.com/"), explicit("https://second.example.com/sym/")];
    let (mut h, a) = ProxyHandler::start(servers, key(), false);
    assert_eq!(fetch_url(&a), "https://first.example.com/foo/ABCD1234/foo.pdb");
    let a = h.handle(Event::Responded { status: 404, content_length: None });
    assert_eq!(fetch_url(&a), "https://second.example.com/sym/foo/ABCD1234/foo.pdb");
    let a = h.handle(Event::Responded { status: 200, content_length: Some(2) });
    assert!(matches!(a, Action::Passthrough));
    assert_eq!(h.position, 1);
}

#[test]
fn no_success_gives_not_found() {
    let servers = vec![explicit("https://first.example.com/"), explicit("https://second.example.com/")];
    let (mut h, _) = ProxyHandler::start(servers, key(), false);
    let a = h.handle(Event::Responded { status: 404, content_length: None });
    assert!(matches!(a, Action::Fetch { .. }));
    let a = h.handle(Event::Responded { status: 500, content_length: None });
    assert!(matches!(a, Action::NotFound));
}

#[test]
fn no_candidates_gives_not_found() {
    let (_, a) = ProxyHandler::start(Vec::new(), key(), false);
    assert!(matches!(a, Action::NotFound));
}

#[test]
fn nothing_is_asked_after_a_success() {
    let servers = vec![explicit("https://first.example.com/"), explicit("https://second.example.com/")];
    let (mut h, _) = ProxyHandler::start(servers, key(), false);
    let a = h.handle(Event::Responded { status: 204, content_length: None });
    assert!(matches!(a, Action::Passthrough));
    let a = h.handle(Event::Responded { status: 404, content_length: None });
    assert!(matches!(a, Action::Fail(_)));
    assert_eq!(h.position, 0);
}

#[test]
fn cached_explicit_winner_is_teed() {
    let cache = Some(CacheConfig { publisher_path: "symbol.exe".to_string(), organization: "contoso".to_string() });
    let candidates = resolve(&vec![explicit("https://sym.example.com/")], &cache).unwrap();
    let (mut h, a) = ProxyHandler::start(candidates, key(), true);
    match a {
        Action::ObtainToken { scope } => assert_eq!(scope, "499b84ac-1321-427f-aa17-267ca6975798/.default"),
        other => panic!("expected a token request, got {:?}", other),
    }
    let a = h.handle(Event::TokenIssued { secret: "tok".to_string() });
    match a {
        Action::Fetch { url, bearer } => {
            assert_eq!(url, "https://artifacts.dev.azure.com/contoso/_apis/symbol/symsrv/foo/ABCD1234/foo.pdb");
            assert_eq!(bearer.as_deref(), Some("tok"));
        },
        other => panic!("expected a fetch, got {:?}", other),
    }
    let a = h.handle(Event::Responded { status: 404, content_length: None });
    assert_eq!(fetch_url(&a), "https://sym.example.com/foo/ABCD1234/foo.pdb");
    let a = h.handle(Event::Responded { status: 200, content_length: Some(4) });
    assert!(matches!(a, Action::TeeAndPublish { content_length: 4 }));
}

#[test]
fn cache_origin_winner_is_not_teed() {
    let cache = Some(CacheConfig { publisher_path: "symbol.exe".to_string(), organization: "contoso".to_string() });
    let candidates = resolve(&Vec::new(), &cache).unwrap();
    let (mut h, _) = ProxyHandler::start(candidates, key(), true);
    h.handle(Event::TokenIssued { secret: "tok".to_string() });
    let a = h.handle(Event::Responded { status: 200, content_length: None });
    assert!(matches!(a, Action::Passthrough));
}

#[test]
fn cached_winner_without_length_fails() {
    let (mut h, _) = ProxyHandler::start(vec![explicit("https://sym.example.com/")], key(), true);
    let a = h.handle(Event::Responded { status: 200, content_length: None });
    match a {
        Action::Fail(e) => {
            assert_eq!(e.kind, ErrorKind::Misconfiguration);
            assert_eq!(e.status_code(), 500);
        },
        other => panic!("expected a failure, got {:?}", other),
    }
}

#[test]
fn token_failure_fails_before_any_fetch() {
    let d = UpstreamDescriptor::explicit("https://private.example.com/", Some("api://sym/.default".to_string()))
        .unwrap();
    let (mut h, a) = ProxyHandler::start(vec![d, explicit("https://public.example.com/")], key(), false);
    assert!(matches!(a, Action::ObtainToken { .. }));
    let a = h.handle(Event::TokenRefused { cause: "no identity".to_string() });
    match a {
        Action::Fail(e) => {
            assert_eq!(e.kind, ErrorKind::Authentication);
            assert_eq!(e.status_code(), 500);
            assert_eq!(e.response_body(), "failed to get token: no identity");
        },
        other => panic!("expected a failure, got {:?}", other),
    }
}

#[test]
fn transport_failure_does_not_fall_back() {
    let servers = vec![explicit("https://first.example.com/"), explicit("https://second.example.com/")];
    let (mut h, _) = ProxyHandler::start(servers, key(), false);
    let a = h.handle(Event::TransportFailed { cause: "refused".to_string() });
    match a {
        Action::Fail(e) => assert_eq!(e.kind, ErrorKind::Transport),
        other => panic!("expected a failure, got {:?}", other),
    }
}

#[test]
fn resolver_prepends_cache_origin() {
    let servers = vec![explicit("https://a.example.com/"), explicit("https://b.example.com/")];
    let cache = Some(CacheConfig { publisher_path: "symbol.exe".to_string(), organization: "contoso".to_string() });
    let r = resolve(&servers, &cache).unwrap();
    assert_eq!(r.len(), 3);
    assert_eq!(r[0].origin, Origin::CacheOrigin);
    assert_eq!(r[0].base_url, "https://artifacts.dev.azure.com/contoso/_apis/symbol/symsrv/");
    assert_eq!(r[0].auth_scope.as_deref(), Some("499b84ac-1321-427f-aa17-267ca6975798/.default"));
    assert_eq!(r[1].base_url, "https://a.example.com/");
    assert_eq!(r[2].base_url, "https://b.example.com/");
    assert_eq!(r[1].origin, Origin::Explicit);
}

#[test]
fn resolver_without_cache_keeps_servers() {
    let servers = vec![explicit("https://a.example.com/")];
    let r = resolve(&servers, &None).unwrap();
    assert_eq!(r.len(), 1);
    assert_eq!(r[0].base_url, "https://a.example.com/");
}

#[test]
fn bad_url_is_misconfiguration() {
    let e = UpstreamDescriptor::explicit("not a url", None).unwrap_err();
    assert_eq!(e.kind, ErrorKind::Misconfiguration);
    assert!(e.message.starts_with("failed to parse upstream url: "));
}

#[test]
fn explicit_url_is_normalized() {
    let d = UpstreamDescriptor::explicit("HTTPS://Sym.Example.com", None).unwrap();
    assert_eq!(d.base_url, "https://sym.example.com/");
}

#[test]
fn target_url_joins_path() {
    let d = explicit("https://sym.example.com/a/b/");
    assert_eq!(target_url(&d, &key()).unwrap(), "https://sym.example.com/a/b/foo/ABCD1234/foo.pdb");
    assert_eq!(key().relative_path(), "foo/ABCD1234/foo.pdb");
}
