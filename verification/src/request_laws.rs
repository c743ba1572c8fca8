//! What holds of the decisions on requests.

use crate::filter::DecisionView;
use crate::filter::status_response;
use crate::github::held_url;
use crate::github::is_official;
use crate::github::is_url_format;
use crate::github::lemma_held_location;
use crate::github::official;
use crate::github::path_target;
use crate::github::url_target;
use crate::host_laws::lemma_host_lengths;
use crate::proxy::ProxyHosts;
use crate::proxy::configured;
use crate::text::before;
use crate::text::lemma_position;
use crate::text::lemma_position_is;
use crate::text::lower;
use crate::text::lowercase;
use crate::text::position;
use crate::text::stripped;
use crate::upstream::DOCKER_AUTH;
use crate::upstream::DOCKER_REGISTRY;
use crate::upstream::GHCR;
use crate::upstream::GITHUB;
use crate::uri::UriParts;
use crate::uri::after_scheme;
use crate::uri::authority;
use crate::uri::fits;
use crate::uri::is_path_and_query;
use crate::uri::is_plain_host;
use crate::uri::lemma_after_scheme;
use crate::uri::or_slash;
use crate::uri::path_only;
use crate::uri::read_uri;
use crate::uri::with_path;
use vstd::prelude::*;

verus! {

/// A request is forwarded to no other hosts than the ones that the proxy is for.
pub proof fn law_only_known_upstreams(hosts: ProxyHosts, uri: UriParts, host: Seq<char>)
    ensures
        hosts.decision(uri, host) matches DecisionView::Forward { upstream, .. } ==> {
            ||| is_official(upstream)
            ||| upstream == DOCKER_REGISTRY@
            ||| upstream == DOCKER_AUTH@
            ||| upstream == GHCR@
        },
{
}

/// A request is forwarded to GHCR only where there is a Docker host to lead its clients back to.
pub proof fn law_ghcr_needs_docker_host(hosts: ProxyHosts, uri: UriParts, host: Seq<char>)
    ensures
        hosts.decision(uri, host) matches DecisionView::Forward { upstream, .. } ==> (upstream
            == GHCR@ ==> hosts.docker_host is Some),
{
    lemma_host_lengths();
}

/// A health check is answered at every host.
pub proof fn law_health_check(hosts: ProxyHosts, uri: UriParts, host: Seq<char>)
    requires
        uri.path == "/healthz"@,
    ensures
        hosts.decision(uri, host) == DecisionView::Respond(status_response(200, "ok\n"@)),
{
}

/// Any other request at a host that the proxy does not answer for is refused.
pub proof fn law_unknown_host_is_refused(hosts: ProxyHosts, uri: UriParts, host: Seq<char>)
    requires
        uri.path != "/healthz"@,
        configured(host) != hosts.github_host,
        hosts.docker_host != Some(configured(host)),
        hosts.docker_auth_host != Some(configured(host)),
    ensures
        hosts.decision(uri, host) == DecisionView::Respond(
            status_response(421, "host not allowed\n"@),
        ),
{
}

/// A path of a repository goes to GitHub as it is.
pub proof fn law_repository_path(
    hosts: ProxyHosts,
    uri: UriParts,
    host: Seq<char>,
    repository: Seq<char>,
)
    requires
        uri.path == "/"@ + repository,
        uri.path != "/healthz"@,
        after_scheme(repository) is None,
        official(before(repository, '/')) is None,
        hosts.route(host) == Some(GITHUB@),
    ensures
        hosts.decision(uri, host) == (DecisionView::Forward { upstream: GITHUB@, target: None }),
{
    lemma_host_lengths();
    lemma_held_location(repository);
}

/// Whether the first `n` characters of a text are lower-case letters, digits, dots or hyphens.
spec fn is_plain_up_to(s: Seq<char>, n: int) -> bool
    decreases n,
{
    n <= 0 || {
        &&& 'a' <= s[n - 1] <= 'z' || '0' <= s[n - 1] <= '9' || s[n - 1] == '.' || s[n - 1] == '-'
        &&& is_plain_up_to(s, n - 1)
    }
}

proof fn lemma_plain_up_to(s: Seq<char>, n: int, i: int)
    requires
        is_plain_up_to(s, n),
        0 <= i < n,
    ensures
        'a' <= s[i] <= 'z' || '0' <= s[i] <= '9' || s[i] == '.' || s[i] == '-',
    decreases n,
{
    if i < n - 1 {
        lemma_plain_up_to(s, n - 1, i);
    }
}

/// The hosts of GitHub are plain, and none starts as a scheme does.
pub proof fn lemma_official_name(name: Seq<char>)
    requires
        is_official(lowercase(name)),
    ensures
        is_plain_host(name),
        name[0] != 'h',
{
    reveal_strlit("github.com");
    reveal_strlit("api.github.com");
    reveal_strlit("raw.githubusercontent.com");
    reveal_strlit("codeload.github.com");
    reveal_strlit("objects.githubusercontent.com");
    reveal_strlit("release-assets.githubusercontent.com");
    reveal_with_fuel(is_plain_up_to, 37);
    let plain = lowercase(name);
    assert(is_plain_up_to(plain, plain.len() as int));
    assert(plain[0] == lower(name[0]));
    assert forall|i: int| 0 <= i < name.len() implies {
        ||| 'a' <= #[trigger] name[i] <= 'z'
        ||| 'A' <= name[i] <= 'Z'
        ||| '0' <= name[i] <= '9'
        ||| name[i] == '.'
        ||| name[i] == '-'
    } by {
        lemma_plain_up_to(plain, plain.len() as int, i);
        assert(plain[i] == lower(name[i]));
    }
}

/// The host in a URL without its scheme.
proof fn lemma_authority(name: Seq<char>, rest: Seq<char>)
    requires
        is_plain_host(name),
        rest.len() == 0 || rest[0] == '/' || rest[0] == '?' || rest[0] == '#',
    ensures
        authority(name + rest) == name,
        (name + rest).skip(name.len() as int) == rest,
{
    let whole = name + rest;
    let n = name.len() as int;
    assert(whole.skip(n) == rest);
    lemma_position(whole, '/');
    let a = position(whole, '/');
    if a < n {
        assert(whole[a] == name[a]);
    }
    let first = before(whole, '/');
    lemma_position(first, '?');
    let b = position(first, '?');
    if b < n {
        assert(first[b] == name[b]);
    }
    let second = before(first, '?');
    lemma_position(second, '#');
    let c = position(second, '#');
    if c < n {
        assert(second[c] == name[c]);
    }
    let third = before(second, '#');
    if rest.len() > 0 {
        assert(whole[n] == rest[0]);
        if n < third.len() {
            assert(third[n] == rest[0]);
            assert(second[n] == rest[0]);
            assert(first[n] == rest[0]);
        }
    }
    assert(third == name);
}

/// A path that is made of a slash and a URL with its scheme is recognised, with or without the
/// query.
proof fn lemma_url_path(url: Seq<char>)
    requires
        after_scheme(url) is Some,
    ensures
        is_url_format(before("/"@ + url, '?')),
        before("/"@ + url, '?') != "/healthz"@,
{
    reveal_strlit("/");
    reveal_strlit("https://");
    reveal_strlit("http://");
    reveal_strlit("/healthz");
    let whole = "/"@ + url;
    lemma_position(whole, '?');
    let n = position(whole, '?');
    let path = before(whole, '?');
    if stripped(url, "https://"@) is Some {
        assert(url.subrange(0, 8) == "https://"@);
        assert forall|i: int| 0 <= i < 8 implies url[i] == "https://"@[i] by {
            assert(url.subrange(0, 8)[i] == url[i]);
        }
        if n < 9 {
            assert(n == 0 || whole[n] == url[n - 1]);
        }
        assert(path.skip(1).subrange(0, 8) == "https://"@);
    } else {
        assert(url.subrange(0, 7) == "http://"@);
        assert forall|i: int| 0 <= i < 7 implies url[i] == "http://"@[i] by {
            assert(url.subrange(0, 7)[i] == url[i]);
        }
        if n < 8 {
            assert(n == 0 || whole[n] == url[n - 1]);
        }
        assert(path.skip(1).subrange(0, 7) == "http://"@);
    }
    assert(path.subrange(0, 1) == "/"@);
    assert(path[2] == url[1]);
    assert(path[2] == 't');
}

/// So is one that is made of a slash and a URL of a host of GitHub's own without its scheme.
proof fn lemma_bare_url_path(name: Seq<char>, rest: Seq<char>)
    requires
        is_official(lowercase(name)),
        rest.len() == 0 || rest[0] == '/',
    ensures
        is_url_format(before("/"@ + (name + rest), '?')),
        before("/"@ + (name + rest), '?') != "/healthz"@,
        after_scheme(name + rest) is None,
{
    reveal_strlit("/");
    reveal_strlit("https://");
    reveal_strlit("http://");
    reveal_strlit("/healthz");
    lemma_official_name(name);
    let url = name + rest;
    let whole = "/"@ + url;
    lemma_position(whole, '?');
    let n = position(whole, '?');
    let path = before(whole, '?');
    if n <= name.len() {
        assert(n == 0 || whole[n] == name[n - 1]);
    }
    assert(path.subrange(0, 1) == "/"@);
    let held = path.skip(1);
    assert forall|i: int| 0 <= i < name.len() implies held[i] != '/' by {
        assert(held[i] == name[i]);
    }
    if held.len() > name.len() {
        assert(held[name.len() as int] == rest[0]);
    }
    lemma_position_is(held, '/', name.len() as int);
    assert(before(held, '/') == name);
    assert(path[1] == name[0]);
    assert(url[0] == name[0]);
    if stripped(url, "https://"@) is Some {
        assert(url.subrange(0, 8)[0] == url[0]);
    }
    if stripped(url, "http://"@) is Some {
        assert(url.subrange(0, 7)[0] == url[0]);
    }
}

/// What an `http` or `https` URL with a plain host is read as.
pub proof fn lemma_read_plain_url(scheme: Seq<char>, name: Seq<char>, rest: Seq<char>)
    requires
        scheme == "https://"@ || scheme == "http://"@,
        is_plain_host(name),
        rest.len() == 0 || rest[0] == '/' || rest[0] == '?' || rest[0] == '#',
    ensures
        read_uri(scheme + (name + rest)) == if fits(scheme + (name + rest)) {
            with_path(Some(name), rest)
        } else {
            None
        },
{
    lemma_authority(name, rest);
    lemma_after_scheme(name + rest);
    let url = scheme + (name + rest);
    assert(!("/"@.is_prefix_of(url)) && !("?"@.is_prefix_of(url))) by {
        reveal_strlit("/");
        reveal_strlit("?");
        reveal_strlit("https://");
        reveal_strlit("http://");
        assert(url.subrange(0, 1)[0] == 'h');
    }
}

/// What the URL of a host of GitHub's own stands for.
proof fn lemma_read_github_url(name: Seq<char>, rest: Seq<char>)
    requires
        is_official(lowercase(name)),
        rest.len() == 0 || rest[0] == '/',
        !rest.contains('#'),
        is_path_and_query(rest),
        fits("https://"@ + (name + rest)),
    ensures
        read_uri("https://"@ + (name + rest)) matches Some(url) && url_target(url) == Some(
            (lowercase(name), path_target(or_slash(rest))),
        ),
{
    lemma_official_name(name);
    lemma_read_plain_url("https://"@, name, rest);
    assert forall|i: int| 0 <= i < rest.len() implies rest[i] != '#' by {}
    lemma_position_is(rest, '#', rest.len() as int);
    assert(before(rest, '#') == rest);
    assert("/"@.is_prefix_of(or_slash(rest))) by {
        reveal_strlit("/");
        assert(or_slash(rest).subrange(0, 1) =~= "/"@);
    }
}

/// The URL of a host of GitHub's own, with a path or nothing behind the host, leads to that host
/// and that path, with the query. It may be written with `https://`, with `http://` or without
/// a scheme, and its host in any case.
pub proof fn law_github_url_is_forwarded(
    hosts: ProxyHosts,
    uri: UriParts,
    host: Seq<char>,
    scheme: Seq<char>,
    name: Seq<char>,
    rest: Seq<char>,
)
    requires
        scheme == "https://"@ || scheme == "http://"@ || scheme.len() == 0,
        is_official(lowercase(name)),
        rest.len() == 0 || rest[0] == '/',
        !rest.contains('#'),
        is_path_and_query(rest),
        fits("https://"@ + (name + rest)),
        uri.path_and_query == Some("/"@ + (scheme + (name + rest))),
        uri.path == before("/"@ + (scheme + (name + rest)), '?'),
        hosts.route(host) == Some(GITHUB@),
    ensures
        hosts.decision(uri, host) == (DecisionView::Forward {
            upstream: lowercase(name),
            target: Some(path_target(or_slash(rest))),
        }),
{
    lemma_host_lengths();
    let bare = name + rest;
    let url = scheme + bare;
    lemma_after_scheme(bare);
    lemma_held_location(url);
    if scheme.len() == 0 {
        assert(url == bare);
        lemma_bare_url_path(name, rest);
    } else {
        lemma_url_path(url);
    }
    assert(held_url(uri.path_and_query) == Some("https://"@ + bare));
    lemma_read_github_url(name, rest);
}

/// The URL of another host is refused, whatever it leads to.
pub proof fn law_foreign_url_is_refused(
    hosts: ProxyHosts,
    uri: UriParts,
    host: Seq<char>,
    scheme: Seq<char>,
    name: Seq<char>,
    rest: Seq<char>,
)
    requires
        scheme == "https://"@ || scheme == "http://"@,
        is_plain_host(name),
        !is_official(lowercase(name)),
        rest.len() == 0 || rest[0] == '/' || rest[0] == '?' || rest[0] == '#',
        uri.path_and_query == Some("/"@ + (scheme + (name + rest))),
        uri.path == before("/"@ + (scheme + (name + rest)), '?'),
        hosts.route(host) == Some(GITHUB@),
    ensures
        hosts.decision(uri, host) == DecisionView::Respond(
            status_response(400, "github URL not allowed\n"@),
        ),
{
    lemma_host_lengths();
    lemma_read_plain_url("https://"@, name, rest);
    let bare = name + rest;
    let url = scheme + bare;
    lemma_after_scheme(bare);
    lemma_held_location(url);
    lemma_url_path(url);
    assert(held_url(uri.path_and_query) == Some("https://"@ + bare));
}

/// A client that follows a rewritten redirect asks the proxy, at the host that the rewritten
/// location names, for a path that holds the URL it was rewritten from. Where that is an `https`
/// URL, or an `http` URL that is read as with `https`, the request is forwarded to the host and
/// the path of that URL, with the query; it is refused where the URL has a query but no path.
pub proof fn law_redirect_leads_back(
    hosts: ProxyHosts,
    uri: UriParts,
    location: Seq<char>,
    rest: Seq<char>,
)
    requires
        hosts.well_formed(),
        after_scheme(location) == Some(rest),
        uri.path_and_query == Some("/"@ + location),
        uri.path == before("/"@ + location, '?'),
    ensures
        stripped(location, "https://"@) is Some ==> read_uri("https://"@ + rest) == read_uri(
            location,
        ),
        hosts.redirect(location) is Some && read_uri("https://"@ + rest) == read_uri(location)
            ==> hosts.decision(uri, hosts.github_host) == match url_target(read_uri(location)->0) {
            Some((upstream, target)) => DecisionView::Forward { upstream, target: Some(target) },
            None => DecisionView::Respond(status_response(400, "github URL not allowed\n"@)),
        },
{
    lemma_host_lengths();
    lemma_url_path(location);
    lemma_held_location(location);
}

/// A request for an image of GHCR at the Docker host goes to GHCR, without the name of GHCR in
/// its path.
pub proof fn law_ghcr_image(
    hosts: ProxyHosts,
    uri: UriParts,
    host: Seq<char>,
    image: Seq<char>,
    target: UriParts,
)
    requires
        uri.path_and_query == Some("/v2/ghcr.io"@ + image),
        uri.path != "/healthz"@,
        path_only("/v2"@ + image) == Some(target),
        hosts.route(host) == Some(DOCKER_REGISTRY@),
    ensures
        hosts.decision(uri, host) == (DecisionView::Forward {
            upstream: GHCR@,
            target: Some(("/v2"@ + image, target)),
        }),
{
    reveal_strlit("/v2/ghcr.io");
    reveal_strlit("/v2");
    reveal_strlit("/");
    let whole = "/v2/ghcr.io"@ + image;
    assert(whole.subrange(0, 11) == "/v2/ghcr.io"@);
    assert(whole.skip(11) == image);
    let text = "/v2"@ + image;
    assert(text.subrange(0, 1) =~= "/"@);
}

/// So does a request for any other path of GHCR, such as the one that challenges are rewritten
/// to name.
pub proof fn law_ghcr_path(
    hosts: ProxyHosts,
    uri: UriParts,
    host: Seq<char>,
    path: Seq<char>,
    target: UriParts,
)
    requires
        uri.path_and_query == Some("/ghcr.io"@ + path),
        uri.path != "/healthz"@,
        "/"@.is_prefix_of(path),
        path_only(path) == Some(target),
        hosts.route(host) == Some(DOCKER_REGISTRY@),
    ensures
        hosts.decision(uri, host) == (DecisionView::Forward {
            upstream: GHCR@,
            target: Some((path, target)),
        }),
{
    reveal_strlit("/v2/ghcr.io");
    reveal_strlit("/ghcr.io");
    reveal_strlit("/");
    reveal_strlit("?");
    let whole = "/ghcr.io"@ + path;
    assert(whole.subrange(0, 8) == "/ghcr.io"@);
    assert(whole.skip(8) == path);
    if stripped(whole, "/v2/ghcr.io"@) is Some {
        assert(whole.subrange(0, 11)[1] == whole[1]);
    }
    assert(path[0] == "/"@[0]);
    if "?"@.is_prefix_of(path) {
        assert(path.subrange(0, 1)[0] == path[0]);
    }
}

/// Every other request at the Docker host goes to the Docker registry as it is.
pub proof fn law_docker_path(hosts: ProxyHosts, uri: UriParts, host: Seq<char>)
    requires
        uri.path != "/healthz"@,
        uri.path_and_query matches Some(target) ==> {
            &&& !("/v2/ghcr.io"@.is_prefix_of(target))
            &&& !("/ghcr.io"@.is_prefix_of(target))
        },
        hosts.route(host) == Some(DOCKER_REGISTRY@),
    ensures
        hosts.decision(uri, host) == (DecisionView::Forward {
            upstream: DOCKER_REGISTRY@,
            target: None,
        }),
{
    lemma_host_lengths();
}

} // verus!
