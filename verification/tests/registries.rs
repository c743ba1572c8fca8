use gh_proxy::proxy::Proxy;
use gh_proxy::text::replace;
use gh_proxy::upstream::Upstream;
use gh_proxy::upstream::DOCKER_REGISTRY;
use gh_proxy::upstream::GHCR;
use gh_proxy::uri::Uri;

fn uri(text: &str) -> Uri {
    Uri::parse(text).unwrap()
}

#[test]
fn routes_ghcr_namespace_through_ghcr() {
    let image = uri("/v2/ghcr.io/greepar/gh-proxy-rs/manifests/latest");
    assert_eq!(
        Proxy::ghcr_target(&image)
            .unwrap()
            .path_and_query
            .unwrap()
            .as_str(),
        "/v2/greepar/gh-proxy-rs/manifests/latest"
    );

    let token = uri("/ghcr.io/token?service=ghcr.io");
    assert_eq!(
        Proxy::ghcr_target(&token)
            .unwrap()
            .path_and_query
            .unwrap()
            .as_str(),
        "/token?service=ghcr.io"
    );

    let docker_hub = uri("/v2/library/alpine/manifests/latest");
    assert!(Proxy::ghcr_target(&docker_hub).is_none());
}

#[test]
fn targets_at_ghcr_as_they_are_written() {
    let text = |path: &str| Proxy::ghcr_target_text(&uri(path));
    assert_eq!(text("/v2/ghcr.io").as_deref(), Some("/v2"));
    assert_eq!(text("/v2/ghcr.io/").as_deref(), Some("/v2/"));
    assert_eq!(text("/v2/ghcr.io?a").as_deref(), Some("/v2?a"));
    assert_eq!(text("/v2/ghcr.iox").as_deref(), Some("/v2x"));
    assert_eq!(text("/ghcr.io").as_deref(), Some("/"));
    assert_eq!(text("/ghcr.io?a").as_deref(), Some("/?a"));
    assert_eq!(text("/ghcr.io/a?b").as_deref(), Some("/a?b"));
    assert_eq!(text("/ghcr.iox").as_deref(), Some("x"));
    assert_eq!(text("/v2/").as_deref(), None);
    assert_eq!(text("ghcr.io").as_deref(), None);
}

#[test]
fn targets_at_ghcr_are_read_again() {
    let host_only = Proxy::ghcr_target(&uri("/ghcr.iox")).unwrap();
    assert_eq!(host_only.host.as_deref(), Some("x"));
    assert_eq!(host_only.path_and_query, None);
    assert!(Proxy::ghcr_target(&uri("/ghcr.iox/a")).is_none());
}

#[test]
fn challenges_name_the_proxy() {
    let proxy = Proxy::new("gh.example", Some("docker.example"), Some("auth.example"));
    assert_eq!(
        proxy.challenge(
            Upstream::new(DOCKER_REGISTRY),
            "Bearer realm=\"https://auth.docker.io/token\",service=\"registry.docker.io\""
        ),
        "Bearer realm=\"https://auth.example/token\",service=\"registry.docker.io\""
    );
    assert_eq!(
        proxy.challenge(
            Upstream::new(GHCR),
            "Bearer realm=\"https://ghcr.io/token\",service=\"ghcr.io\""
        ),
        "Bearer realm=\"https://docker.example/ghcr.io/token\",service=\"ghcr.io\""
    );
}

#[test]
fn other_challenges_stay() {
    let proxy = Proxy::new("gh.example", Some("docker.example"), None);
    let challenge = "Bearer realm=\"https://auth.docker.io/token\"";
    assert_eq!(
        proxy.challenge(Upstream::new(DOCKER_REGISTRY), challenge),
        challenge
    );
    assert_eq!(proxy.challenge(Upstream::new(GHCR), challenge), challenge);
    assert_eq!(
        proxy.challenge(Upstream::new(GHCR), "Basic realm=\"x\""),
        "Basic realm=\"x\""
    );
}

#[test]
fn replaces_every_occurrence_from_the_left() {
    for (text, from, to) in [
        ("", "a", "b"),
        ("aaa", "aa", "b"),
        ("aaaa", "aa", "a"),
        ("xabyabz", "ab", ""),
        ("é-é", "é", "ab"),
        ("abc", "abcd", "x"),
        ("ab", "ab", "abab"),
    ] {
        assert_eq!(replace(text, from, to), text.replace(from, to));
    }
}
