use gh_proxy::proxy::Proxy;
use gh_proxy::upstream::Upstream;
use gh_proxy::upstream::DOCKER_AUTH;
use gh_proxy::upstream::DOCKER_REGISTRY;
use gh_proxy::upstream::GITHUB;
use gh_proxy::upstream::GITHUB_API;
use gh_proxy::upstream::GITHUB_CODELOAD;
use gh_proxy::upstream::GITHUB_OBJECTS;
use gh_proxy::upstream::GITHUB_RAW;
use gh_proxy::upstream::GITHUB_RELEASES;

fn proxy() -> Proxy {
    Proxy {
        github_host: "github-proxy.example.com".to_owned(),
        docker_host: Some("docker-proxy.example.com".to_owned()),
        docker_auth_host: Some("docker-auth.example.com".to_owned()),
    }
}

#[test]
fn routes_only_whitelisted_hosts() {
    let proxy = proxy();
    assert_eq!(
        proxy.route("github-proxy.example.com"),
        Some(Upstream::new(GITHUB))
    );
    assert_eq!(
        proxy.route("github-proxy.example.com:8080"),
        Some(Upstream::new(GITHUB))
    );
    assert_eq!(
        proxy.route("docker-proxy.example.com"),
        Some(Upstream::new(DOCKER_REGISTRY))
    );
    assert_eq!(
        proxy.route("docker-auth.example.com"),
        Some(Upstream::new(DOCKER_AUTH))
    );
    assert_eq!(proxy.route("example.com"), None);
}

#[test]
fn permits_disabling_optional_proxy_hosts_independently() {
    let registry_only = Proxy {
        github_host: "github-proxy.example.com".to_owned(),
        docker_host: Some("docker-proxy.example.com".to_owned()),
        docker_auth_host: None,
    };
    assert_eq!(
        registry_only.route("docker-proxy.example.com"),
        Some(Upstream::new(DOCKER_REGISTRY))
    );
    assert_eq!(registry_only.route("docker-auth.example.com"), None);

    let github_only = Proxy {
        github_host: "github-proxy.example.com".to_owned(),
        docker_host: None,
        docker_auth_host: None,
    };
    assert_eq!(
        github_only.route("github-proxy.example.com"),
        Some(Upstream::new(GITHUB))
    );
    assert_eq!(github_only.route("docker-proxy.example.com"), None);
}

#[test]
fn hosts_are_compared_without_case_port_and_white_space() {
    assert_eq!(Proxy::configured_host(" GH.Example.COM :443"), "gh.example.com");
    assert_eq!(Proxy::configured_host("gh.example.com"), "gh.example.com");
    assert_eq!(Proxy::configured_host("\u{3000}É.Example\u{a0}"), "É.example");
    assert_eq!(Proxy::configured_host(""), "");
    assert_eq!(Proxy::configured_host(":80"), "");
    assert_eq!(
        proxy().route("\tDOCKER-proxy.example.com:1:2"),
        Some(Upstream::new(DOCKER_REGISTRY))
    );
}

#[test]
fn white_space_is_the_unicode_property() {
    let mut code: u32 = 0;
    while code <= 0x10ffff {
        if let Some(c) = char::from_u32(code) {
            let white = (0x9..=0xd).contains(&code)
                || (0x2000..=0x200a).contains(&code)
                || [
                    0x20, 0x85, 0xa0, 0x1680, 0x2028, 0x2029, 0x202f, 0x205f, 0x3000,
                ]
                .contains(&code);
            let name = Proxy::configured_host(&format!("{c}"));
            assert_eq!(name.is_empty(), white || c == ':');
        }
        code += 1;
    }
}

#[test]
fn configured_names_stay_as_they_are() {
    for host in [" A.b:1", "a.b", "\u{a0}X Y\u{a0}:", "", ":"] {
        let name = Proxy::configured_host(host);
        assert_eq!(Proxy::configured_host(&name), name);
    }
}

#[test]
fn a_proxy_serves_the_hosts_that_it_was_configured_with() {
    let proxy = Proxy::new(" GH.example:1555 ", Some(" Docker.example "), Some("auth.example:1"));
    assert_eq!(proxy.github_host, "gh.example");
    assert_eq!(proxy.docker_host.as_deref(), Some("docker.example"));
    assert_eq!(proxy.docker_auth_host.as_deref(), Some("auth.example"));
    assert_eq!(proxy.route(" GH.example:1555 "), Some(Upstream::new(GITHUB)));
    assert_eq!(
        proxy.route(" Docker.example "),
        Some(Upstream::new(DOCKER_REGISTRY))
    );
    assert_eq!(
        proxy.route("auth.example:1"),
        Some(Upstream::new(DOCKER_AUTH))
    );
}

#[test]
fn blank_docker_hosts_count_as_none() {
    let proxy = Proxy::new("gh.example", Some(" \t"), Some(""));
    assert_eq!(proxy.docker_host, None);
    assert_eq!(proxy.docker_auth_host, None);
    assert_eq!(proxy.route(""), None);
    let proxy = Proxy::new("gh.example", Some(" :80"), None);
    assert_eq!(proxy.docker_host.as_deref(), Some(""));
}

#[test]
fn the_first_of_equal_names_counts() {
    let proxy = Proxy::new("one.example", Some("one.example"), Some("one.example"));
    assert_eq!(proxy.route("one.example"), Some(Upstream::new(GITHUB)));
}

#[test]
fn knows_the_hosts_of_github() {
    for host in [
        GITHUB,
        GITHUB_API,
        GITHUB_RAW,
        GITHUB_CODELOAD,
        GITHUB_OBJECTS,
        GITHUB_RELEASES,
    ] {
        assert_eq!(Proxy::github_upstream(host), Some(Upstream::new(host)));
    }
    assert_eq!(
        Proxy::github_upstream("GitHub.COM"),
        Some(Upstream::new(GITHUB))
    );
    assert_eq!(Proxy::github_upstream("gist.github.com"), None);
    assert_eq!(Proxy::github_upstream("github.com:443"), None);
    assert_eq!(Proxy::github_upstream(""), None);
}

#[test]
fn upstreams_are_compared_by_host() {
    assert_eq!(Upstream::new("github.com"), Upstream::new(GITHUB));
    assert_ne!(Upstream::new("github.com"), Upstream::new(GITHUB_API));
    assert_eq!(Upstream::new(GITHUB).address(), "github.com:443");
}
