use gh_proxy::filter::Decision;
use gh_proxy::filter::StatusResponse;
use gh_proxy::header::HeaderEdit;
use gh_proxy::proxy::Proxy;
use gh_proxy::proxy::RequestContext;
use gh_proxy::text::to_decimal;
use gh_proxy::upstream::Alpn;
use gh_proxy::upstream::Upstream;
use gh_proxy::upstream::DOCKER_AUTH;
use gh_proxy::upstream::DOCKER_REGISTRY;
use gh_proxy::upstream::GHCR;
use gh_proxy::upstream::GITHUB;
use gh_proxy::upstream::GITHUB_RELEASES;
use gh_proxy::uri::Uri;
use http::HeaderMap;
use http::HeaderValue;

fn proxy() -> Proxy {
    Proxy::new("gh.example", Some("docker.example"), Some("auth.example"))
}

fn headers(entries: &[(&'static str, &str)]) -> HeaderMap {
    let mut headers = HeaderMap::new();
    for (name, value) in entries {
        headers.append(*name, HeaderValue::from_str(value).unwrap());
    }
    headers
}

fn response(decision: Decision) -> (u16, &'static str) {
    match decision {
        Decision::Respond(response) => (response.status, response.body),
        Decision::Forward { .. } => panic!("the request was forwarded"),
    }
}

fn forward(decision: Decision) -> (&'static str, Option<String>) {
    match decision {
        Decision::Respond(_) => panic!("the request was answered"),
        Decision::Forward { upstream, target } => (upstream.host, target.map(|uri| uri.text)),
    }
}

fn decide(path: &str, host: &str) -> Decision {
    let mut ctx = proxy().new_ctx();
    proxy().request_filter(
        &Uri::parse(path).unwrap(),
        &headers(&[("host", host)]),
        &mut ctx,
    )
}

fn at(host: &'static str) -> RequestContext {
    RequestContext {
        upstream: Some(Upstream::new(host)),
    }
}

fn pairs(edits: &[HeaderEdit]) -> Vec<(&'static str, Option<&str>)> {
    edits
        .iter()
        .map(|edit| (edit.name, edit.value.as_deref()))
        .collect()
}

#[test]
fn health_checks_are_answered_at_every_host() {
    assert_eq!(response(decide("/healthz", "gh.example")), (200, "ok\n"));
    assert_eq!(response(decide("/healthz?a", "other")), (200, "ok\n"));
    let mut ctx = proxy().new_ctx();
    let decision =
        proxy().request_filter(&Uri::parse("/healthz").unwrap(), &headers(&[]), &mut ctx);
    assert_eq!(response(decision), (200, "ok\n"));
    assert_eq!(ctx.upstream, None);
}

#[test]
fn unknown_hosts_are_refused() {
    assert_eq!(
        response(decide("/", "example.com")),
        (421, "host not allowed\n")
    );
    assert_eq!(
        response(decide("/healthz/", "example.com")),
        (421, "host not allowed\n")
    );
    let mut ctx = proxy().new_ctx();
    let decision = proxy().request_filter(&Uri::parse("/").unwrap(), &headers(&[]), &mut ctx);
    assert_eq!(response(decision), (421, "host not allowed\n"));
    assert_eq!(ctx.upstream, None);
}

#[test]
fn hosts_that_are_not_text_count_as_absent() {
    let mut map = HeaderMap::new();
    map.insert("host", HeaderValue::from_bytes(b"gh.example\xff").unwrap());
    let mut ctx = proxy().new_ctx();
    let decision = proxy().request_filter(&Uri::parse("/").unwrap(), &map, &mut ctx);
    assert_eq!(response(decision), (421, "host not allowed\n"));
    let mut map = HeaderMap::new();
    map.insert("host", HeaderValue::from_bytes(b"\tgh.example \t").unwrap());
    let decision = proxy().request_filter(&Uri::parse("/").unwrap(), &map, &mut ctx);
    assert_eq!(forward(decision), ("github.com", None));
}

#[test]
fn the_first_host_counts() {
    let map = headers(&[("Host", "docker.example"), ("host", "gh.example")]);
    let mut ctx = proxy().new_ctx();
    let decision = proxy().request_filter(&Uri::parse("/v2/").unwrap(), &map, &mut ctx);
    assert_eq!(forward(decision), ("registry-1.docker.io", None));
    assert_eq!(ctx.upstream, Some(Upstream::new(DOCKER_REGISTRY)));
}

#[test]
fn repositories_go_to_github_as_they_are() {
    assert_eq!(
        forward(decide(
            "/owner/repository.git/info/refs?service=git-upload-pack",
            "gh.example"
        )),
        ("github.com", None)
    );
}

#[test]
fn github_urls_are_forwarded() {
    for scheme in ["https://", "http://", ""] {
        assert_eq!(
            forward(decide(
                &format!("/{scheme}Release-Assets.githubusercontent.com/a?b=c"),
                "GH.example:443"
            )),
            (GITHUB_RELEASES, Some("/a?b=c".to_owned()))
        );
    }
}

#[test]
fn foreign_urls_are_refused() {
    for path in [
        "/https://example.com/file",
        "/http://example.com",
        "/https://github.com?a",
        "/https://",
    ] {
        let mut ctx = at(GHCR);
        let decision = proxy().request_filter(
            &Uri::parse(path).unwrap(),
            &headers(&[("host", "gh.example")]),
            &mut ctx,
        );
        assert_eq!(response(decision), (400, "github URL not allowed\n"));
        assert_eq!(ctx.upstream, Some(Upstream::new(GHCR)));
    }
}

#[test]
fn docker_hosts_do_not_take_urls() {
    assert_eq!(
        forward(decide("/https://github.com/a", "docker.example")),
        (DOCKER_REGISTRY, None)
    );
    assert_eq!(
        forward(decide("/ghcr.io/token", "auth.example")),
        (DOCKER_AUTH, None)
    );
    assert_eq!(
        forward(decide("/v2/ghcr.io/a", "gh.example")),
        (GITHUB, None)
    );
}

#[test]
fn images_of_ghcr_go_to_ghcr() {
    assert_eq!(
        forward(decide("/v2/ghcr.io/a/b/manifests/latest", "docker.example")),
        (GHCR, Some("/v2/a/b/manifests/latest".to_owned()))
    );
    assert_eq!(
        forward(decide("/ghcr.io/token?scope=a", "docker.example")),
        (GHCR, Some("/token?scope=a".to_owned()))
    );
    assert_eq!(
        forward(decide("/ghcr.iox/a", "docker.example")),
        (DOCKER_REGISTRY, None)
    );
}

#[test]
fn decisions_follow_from_the_targets() {
    let proxy = proxy();
    let uri = |text: &str| Uri::parse(text).unwrap();
    assert_eq!(
        forward(proxy.decide(&uri("/x"), "docker.example", Some(uri("/y")), None)),
        (GHCR, Some("/y".to_owned()))
    );
    assert_eq!(
        forward(proxy.decide(&uri("/x"), "auth.example", Some(uri("/y")), None)),
        (DOCKER_AUTH, None)
    );
    assert_eq!(
        forward(proxy.decide(
            &uri("/github.com/x"),
            "gh.example",
            None,
            Some((Upstream::new(GITHUB_RELEASES), uri("/y")))
        )),
        (GITHUB_RELEASES, Some("/y".to_owned()))
    );
    assert_eq!(
        response(proxy.decide(&uri("/github.com/x"), "gh.example", None, None)),
        (400, "github URL not allowed\n")
    );
    assert_eq!(
        response(proxy.decide(&uri("/healthz"), "", None, None)),
        (200, "ok\n")
    );
    assert_eq!(
        response(proxy.decide(&uri("/x"), "", Some(uri("/y")), None)),
        (421, "host not allowed\n")
    );
}

#[test]
fn responses_of_the_proxy_are_plain_text() {
    let response = StatusResponse::new(421, "host not allowed\n");
    assert_eq!(response.status, 421);
    assert_eq!(response.body, "host not allowed\n");
    assert_eq!(
        pairs(&response.headers),
        vec![
            ("content-type", Some("text/plain; charset=utf-8")),
            ("content-length", Some("17")),
            ("cache-control", Some("no-store")),
        ]
    );
    assert_eq!(
        pairs(&StatusResponse::new(200, "é").headers)[1],
        ("content-length", Some("2"))
    );
}

#[test]
fn numbers_are_written_with_decimal_digits() {
    for n in [0, 7, 9, 10, 17, 99, 100, 1009, usize::MAX] {
        assert_eq!(to_decimal(n), format!("{n}"));
    }
}

#[test]
fn upstreams_are_connected_to_with_tls() {
    let peer = proxy().upstream_peer(&at(GHCR));
    assert_eq!(peer.address, "ghcr.io:443");
    assert!(peer.tls);
    assert_eq!(peer.sni, "ghcr.io");
    assert_eq!(peer.connection_timeout, 3);
    assert_eq!(peer.total_connection_timeout, 3);
    assert_eq!(peer.read_timeout, 300);
    assert_eq!(peer.write_timeout, 300);
    assert_eq!(peer.idle_timeout, 90);
    assert_eq!(peer.alpn, Alpn::Http1);
}

#[test]
fn requests_name_their_upstream() {
    assert_eq!(
        pairs(&proxy().upstream_request_filter(&at(GITHUB))),
        vec![
            ("host", Some("github.com")),
            ("via", None),
            ("x-forwarded-host", None),
            ("x-forwarded-server", None),
        ]
    );
}

#[test]
fn responses_of_github_have_their_redirects_rewritten() {
    let map = headers(&[
        ("location", "https://github.com/a"),
        ("www-authenticate", "Bearer realm=\"https://auth.docker.io/token\""),
    ]);
    for host in [GITHUB, GITHUB_RELEASES, DOCKER_AUTH] {
        assert_eq!(
            pairs(&proxy().upstream_response_filter(&at(host), &map)),
            vec![
                ("server", None),
                ("via", None),
                ("location", Some("https://gh.example/https://github.com/a")),
                ("cache-control", Some("no-store")),
            ]
        );
    }
    let map = headers(&[("location", "https://example.com/a")]);
    assert_eq!(
        pairs(&proxy().upstream_response_filter(&at(GITHUB), &map)),
        vec![("server", None), ("via", None)]
    );
}

#[test]
fn responses_of_the_registry_have_their_challenges_rewritten() {
    let map = headers(&[
        ("location", "https://github.com/a"),
        ("www-authenticate", "Bearer realm=\"https://auth.docker.io/token\""),
    ]);
    assert_eq!(
        pairs(&proxy().upstream_response_filter(&at(DOCKER_REGISTRY), &map)),
        vec![
            ("server", None),
            ("via", None),
            (
                "www-authenticate",
                Some("Bearer realm=\"https://auth.example/token\"")
            ),
        ]
    );
    assert_eq!(
        pairs(&proxy().upstream_response_filter(&at(DOCKER_REGISTRY), &headers(&[]))),
        vec![("server", None), ("via", None)]
    );
}

#[test]
fn responses_of_ghcr_have_both_rewritten() {
    let map = headers(&[
        ("location", "https://github.com/a"),
        ("www-authenticate", "Bearer realm=\"https://ghcr.io/token\""),
    ]);
    assert_eq!(
        pairs(&proxy().upstream_response_filter(&at(GHCR), &map)),
        vec![
            ("server", None),
            ("via", None),
            ("location", Some("https://gh.example/https://github.com/a")),
            ("cache-control", Some("no-store")),
            (
                "www-authenticate",
                Some("Bearer realm=\"https://docker.example/ghcr.io/token\"")
            ),
        ]
    );
}

#[test]
fn responses_without_an_upstream_lose_only_the_servers() {
    let map = headers(&[("location", "https://github.com/a")]);
    assert_eq!(
        pairs(&proxy().upstream_response_filter(&RequestContext::default(), &map)),
        vec![("server", None), ("via", None)]
    );
}

#[test]
fn edits_of_a_response_follow_from_its_redirect_and_challenge() {
    assert_eq!(
        pairs(&proxy().response_edits(
            &at(GITHUB),
            Some("x".to_owned()),
            Some("https://auth.docker.io/".to_owned())
        )),
        vec![
            ("server", None),
            ("via", None),
            ("location", Some("x")),
            ("cache-control", Some("no-store")),
        ]
    );
    assert_eq!(
        pairs(&proxy().response_edits(
            &at(DOCKER_REGISTRY),
            Some("x".to_owned()),
            Some("https://auth.docker.io/".to_owned())
        )),
        vec![
            ("server", None),
            ("via", None),
            ("www-authenticate", Some("https://auth.example/")),
        ]
    );
}

#[test]
fn failed_requests_are_logged() {
    assert_eq!(
        proxy()
            .logging("/a", Some("refused"), &at(GITHUB))
            .as_deref(),
        Some("proxy error upstream=github.com path=/a error=refused")
    );
    assert_eq!(
        proxy()
            .logging("/a", Some("refused"), &RequestContext::default())
            .as_deref(),
        Some("proxy error upstream=none path=/a error=refused")
    );
    assert_eq!(proxy().logging("/a", None, &at(GITHUB)), None);
}
