use gh_proxy::proxy::Proxy;
use gh_proxy::upstream::Upstream;
use gh_proxy::upstream::GITHUB;
use gh_proxy::upstream::GITHUB_API;
use gh_proxy::upstream::GITHUB_RAW;
use gh_proxy::uri::Uri;

fn proxy() -> Proxy {
    Proxy {
        github_host: "github-proxy.example.com".to_owned(),
        docker_host: Some("docker-proxy.example.com".to_owned()),
        docker_auth_host: Some("docker-auth.example.com".to_owned()),
    }
}

fn uri(text: &str) -> Uri {
    Uri::parse(text).unwrap()
}

#[test]
fn permits_only_official_github_url_targets() {
    let target = uri("/https://github.com/llvm/llvm-project/releases/download/llvmorg-22.1.8/LLVM-22.1.8-Linux-X64.tar.xz");
    let (upstream, path) = Proxy::github_url_target(&target).unwrap();
    assert_eq!(upstream, Upstream::new(GITHUB));
    assert_eq!(
        path.path_and_query.unwrap().as_str(),
        "/llvm/llvm-project/releases/download/llvmorg-22.1.8/LLVM-22.1.8-Linux-X64.tar.xz"
    );

    let blocked = uri("/https://example.com/file");
    assert!(Proxy::github_url_target(&blocked).is_none());

    let raw =
        uri("/raw.githubusercontent.com/komari-monitor/komari-agent/refs/heads/main/install.sh");
    let (upstream, path) = Proxy::github_url_target(&raw).unwrap();
    assert_eq!(upstream, Upstream::new(GITHUB_RAW));
    assert_eq!(
        path.path,
        "/komari-monitor/komari-agent/refs/heads/main/install.sh"
    );

    let http = uri("/http://raw.githubusercontent.com/komari-monitor/komari-agent/refs/heads/main/install.sh");
    assert_eq!(
        Proxy::github_url_target(&http).unwrap().0,
        Upstream::new(GITHUB_RAW)
    );
}

#[test]
fn rewrites_github_download_redirects_through_proxy() {
    let proxy = proxy();
    assert_eq!(
        proxy
            .github_proxy_redirect("https://objects.githubusercontent.com/file?token=abc")
            .as_deref(),
        Some(
            "https://github-proxy.example.com/https://objects.githubusercontent.com/file?token=abc"
        )
    );
    assert!(proxy
        .github_proxy_redirect("https://example.com/file")
        .is_none());
}

#[test]
fn held_urls_get_the_scheme_https() {
    let held = |text: &str| Proxy::github_held_url(&uri(text));
    assert_eq!(held("/https://a/b?c").as_deref(), Some("https://a/b?c"));
    assert_eq!(held("/http://a/b").as_deref(), Some("https://a/b"));
    assert_eq!(held("/a/b").as_deref(), Some("https://a/b"));
    assert_eq!(
        held("/https://http://a").as_deref(),
        Some("https://http://a")
    );
    assert_eq!(held("/").as_deref(), Some("https://"));
    assert_eq!(held("github.com"), None);
    assert_eq!(held("*"), None);
}

#[test]
fn a_destination_is_a_host_of_github_and_a_path() {
    let url = Uri {
        text: String::new(),
        host: Some("API.github.com".to_owned()),
        path: "/x".to_owned(),
        path_and_query: Some("/x?y".to_owned()),
    };
    assert_eq!(
        Proxy::github_destination(&url),
        Some((Upstream::new(GITHUB_API), "/x?y".to_owned()))
    );
    let url = Uri {
        path_and_query: None,
        ..url
    };
    assert_eq!(
        Proxy::github_destination(&url),
        Some((Upstream::new(GITHUB_API), "/".to_owned()))
    );
    let url = Uri {
        host: Some("example.com".to_owned()),
        ..url
    };
    assert_eq!(Proxy::github_destination(&url), None);
    let url = Uri { host: None, ..url };
    assert_eq!(Proxy::github_destination(&url), None);
}

#[test]
fn url_targets_keep_path_and_query() {
    let target = |text: &str| {
        Proxy::github_url_target(&uri(text)).map(|(upstream, uri)| (upstream.host, uri.text))
    };
    assert_eq!(
        target("/https://GitHub.com/a/b?c=d"),
        Some(("github.com", "/a/b?c=d".to_owned()))
    );
    assert_eq!(
        target("/github.com"),
        Some(("github.com", "/".to_owned()))
    );
    assert_eq!(
        target("/https://user@github.com:8443/a"),
        Some(("github.com", "/a".to_owned()))
    );
    assert_eq!(target("/https://github.com?a"), None);
    assert_eq!(target("/https://github.com.example.com/a"), None);
    assert_eq!(target("/HTTPS://github.com/a"), None);
    assert_eq!(target("/https://"), None);
    assert_eq!(target("/"), None);
}

#[test]
fn recognises_urls_in_paths() {
    let held = |text: &str| Proxy::is_github_url_format(&uri(text));
    assert!(held("/https://example.com/file"));
    assert!(held("/http://example.com"));
    assert!(held("/github.com/owner/repository"));
    assert!(held("/RAW.githubusercontent.com"));
    assert!(!held("/owner/repository.git/info/refs?service=git-upload-pack"));
    assert!(!held("/github.com:443/a"));
    assert!(!held("/owner?x=/https://github.com"));
    assert!(!held("/"));
    assert!(!held("*"));
    assert!(!held("github.com"));
}

#[test]
fn redirects_stay_unless_they_lead_to_github() {
    let proxy = proxy();
    assert_eq!(proxy.github_proxy_redirect("/login"), None);
    assert_eq!(proxy.github_proxy_redirect("//github.com/login"), None);
    assert_eq!(proxy.github_proxy_redirect("not a url"), None);
    assert_eq!(proxy.github_proxy_redirect(""), None);
    assert_eq!(
        proxy
            .github_proxy_redirect("http://codeload.github.com/a")
            .as_deref(),
        Some("https://github-proxy.example.com/http://codeload.github.com/a")
    );
    assert_eq!(
        proxy.github_proxy_redirect("github.com").as_deref(),
        Some("https://github-proxy.example.com/github.com")
    );
}

#[test]
fn redirects_of_a_read_location() {
    let proxy = proxy();
    let url = uri("https://github.com/a");
    assert_eq!(
        proxy.github_redirect_of("anything", &url).as_deref(),
        Some("https://github-proxy.example.com/anything")
    );
    assert_eq!(proxy.github_redirect_of("anything", &uri("/a")), None);
}

#[test]
fn rewritten_redirects_lead_back() {
    let proxy = proxy();
    for (location, host, path) in [
        (
            "https://objects.githubusercontent.com/file?token=abc",
            "objects.githubusercontent.com",
            "/file?token=abc",
        ),
        ("http://user@GitHub.com:80/a?b", "github.com", "/a?b"),
        ("https://api.github.com", "api.github.com", "/"),
    ] {
        let rewritten = proxy.github_proxy_redirect(location).unwrap();
        let path_and_query = rewritten
            .strip_prefix("https://github-proxy.example.com")
            .unwrap();
        let (upstream, target) = Proxy::github_url_target(&uri(path_and_query)).unwrap();
        assert_eq!(upstream.host, host);
        assert_eq!(target.text, path);
    }
}

#[test]
fn redirects_are_rewritten_once() {
    let proxy = proxy();
    let rewritten = proxy
        .github_proxy_redirect("HTTPS://GitHub.com/a#b")
        .unwrap();
    assert_eq!(
        rewritten,
        "https://github-proxy.example.com/HTTPS://GitHub.com/a#b"
    );
    assert_eq!(proxy.github_proxy_redirect(&rewritten), None);
}
