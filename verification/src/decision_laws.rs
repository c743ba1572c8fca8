//! What requests come to: from the hosts that the proxy was given, the headers and the path of
//! a request, to what is done with it.

use crate::docker::ghcr_target;
use crate::docker::ghcr_text;
use crate::filter::Decision;
use crate::filter::StatusResponse;
use crate::filter::host_text;
use crate::filter::status_response;
use crate::github::destination;
use crate::github::github_target;
use crate::github::held_url;
use crate::github::is_url_format;
use crate::github::official;
use crate::github::target_view;
use crate::header::header_text;
use crate::host_laws::lemma_host_lengths;
use crate::message_laws::holds_text;
use crate::message_laws::law_header_text;
use crate::proxy::Proxy;
use crate::proxy::ProxyHosts;
use crate::proxy::configured;
use crate::proxy::optional;
use crate::request_laws::law_foreign_url_is_refused;
use crate::request_laws::law_github_url_is_forwarded;
use crate::text::before;
use crate::text::is_white_space;
use crate::text::lowercase;
use crate::text::stripped;
use crate::text_laws::law_decimal;
use crate::text_laws::law_optional_host;
use crate::text_laws::law_stripped;
use crate::text_laws::number;
use crate::upstream::Upstream;
use crate::upstream::upstream_host;
use crate::uri::Uri;
use crate::uri::fits;
use crate::uri::is_path_and_query;
use crate::uri::is_plain_host;
use crate::uri::lemma_after_scheme;
use crate::uri::optional_target;
use crate::uri::read_uri;
use crate::uri::uri_parts;
use vstd::prelude::*;
use vstd::utf8::encode_utf8;

verus! {

/// A proxy has the name in its GitHub host, and the name in each Docker host that it was given and
/// that holds more than white space.
pub proof fn law_new_proxy(
    proxy: Proxy,
    github: &str,
    docker: Option<&str>,
    docker_auth: Option<&str>,
)
    requires
        proxy@ == ProxyHosts::new(github@, optional(docker), optional(docker_auth)),
    ensures
        proxy.github_host@ == configured(github@),
        match docker {
            Some(host) => if exists|i: int| 0 <= i < host@.len() && !is_white_space(host@[i]) {
                proxy.docker_host matches Some(name) && name@ == configured(host@)
            } else {
                proxy.docker_host is None
            },
            None => proxy.docker_host is None,
        },
        match docker_auth {
            Some(host) => if exists|i: int| 0 <= i < host@.len() && !is_white_space(host@[i]) {
                proxy.docker_auth_host matches Some(name) && name@ == configured(host@)
            } else {
                proxy.docker_auth_host is None
            },
            None => proxy.docker_auth_host is None,
        },
{
    if let Some(host) = docker {
        law_optional_host(host@);
    }
    if let Some(host) = docker_auth {
        law_optional_host(host@);
    }
    assert(proxy@.docker_host == proxy.docker_host.deep_view());
    assert(proxy@.docker_auth_host == proxy.docker_auth_host.deep_view());
}

/// A host stands for GitHub where its name is the GitHub host of the proxy, else for the Docker
/// registry where it is the Docker host, else for the Docker token service where it is the token
/// host, else for nothing.
pub proof fn law_route(proxy: Proxy, host: Seq<char>, upstream: Option<Upstream>)
    requires
        upstream_host(upstream) == proxy@.route(host),
    ensures
        ({
            let name = configured(host);
            if name == proxy.github_host@ {
                upstream matches Some(upstream) && upstream.host@ == "github.com"@
            } else if proxy.docker_host is Some && proxy.docker_host->0@ == name {
                upstream matches Some(upstream) && upstream.host@ == "registry-1.docker.io"@
            } else if proxy.docker_auth_host is Some && proxy.docker_auth_host->0@ == name {
                upstream matches Some(upstream) && upstream.host@ == "auth.docker.io"@
            } else {
                upstream is None
            }
        }),
{
    assert(proxy@.docker_host == proxy.docker_host.deep_view());
    assert(proxy@.docker_auth_host == proxy.docker_auth_host.deep_view());
}

/// Six hosts are GitHub's own, in whatever case they are written, and each is its own upstream.
pub proof fn law_github_hosts(host: Seq<char>, upstream: Option<Upstream>)
    requires
        upstream_host(upstream) == official(host),
    ensures
        upstream is Some <==> {
            ||| lowercase(host) == "github.com"@
            ||| lowercase(host) == "api.github.com"@
            ||| lowercase(host) == "raw.githubusercontent.com"@
            ||| lowercase(host) == "codeload.github.com"@
            ||| lowercase(host) == "objects.githubusercontent.com"@
            ||| lowercase(host) == "release-assets.githubusercontent.com"@
        },
        upstream matches Some(upstream) ==> upstream.host@ == lowercase(host),
{
}

/// A URI that was read has the host, the path, and the path with the query that its text is read
/// as.
pub proof fn law_read_parts(uri: Option<Uri>, text: Seq<char>)
    ensures
        uri_parts(uri) == read_uri(text) ==> match read_uri(text) {
            Some(parts) => {
                &&& uri is Some
                &&& uri->0.host.deep_view() == parts.host
                &&& uri->0.path@ == parts.path
                &&& uri->0.path_and_query.deep_view() == parts.path_and_query
            },
            None => uri is None,
        },
{
}

/// The URL that a request path holds: what follows the slash, with `https://` in place of the
/// scheme that it has or has not.
pub proof fn law_held_url(uri: Uri, url: Option<String>, rest: Seq<char>)
    requires
        url.deep_view() == held_url(uri@.path_and_query),
    ensures
        match uri.path_and_query {
            Some(target) => {
                &&& target@.len() == 0 || target@[0] != '/' ==> url is None
                &&& target@ == "/https://"@ + rest ==> (url matches Some(url) && url@
                    == "https://"@ + rest)
                &&& target@ == "/http://"@ + rest ==> (url matches Some(url) && url@ == "https://"@
                    + rest)
                &&& target@ == "/"@ + rest && (forall|r: Seq<char>|
                    #![trigger "https://"@ + r]
                    #![trigger "http://"@ + r]
                    rest != "https://"@ + r && rest != "http://"@ + r) ==> (url matches Some(url)
                    && url@ == "https://"@ + rest)
            },
            None => url is None,
        },
{
    assert(uri@.path_and_query == uri.path_and_query.deep_view());
    if let Some(target) = uri.path_and_query {
        reveal_strlit("/");
        reveal_strlit("/https://");
        reveal_strlit("/http://");
        reveal_strlit("https://");
        reveal_strlit("http://");
        assert("/https://"@ + rest =~= "/"@ + ("https://"@ + rest));
        assert("/http://"@ + rest =~= "/"@ + ("http://"@ + rest));
        lemma_after_scheme(rest);
        law_stripped(target@, "/"@, rest);
        law_stripped(target@, "/"@, "https://"@ + rest);
        law_stripped(target@, "/"@, "http://"@ + rest);
        if let Some(held) = stripped(target@, "/"@) {
            law_stripped(target@, "/"@, held);
        }
        if let Some(r) = stripped(rest, "https://"@) {
            law_stripped(rest, "https://"@, r);
        }
        if let Some(r) = stripped(rest, "http://"@) {
            law_stripped(rest, "http://"@, r);
        }
    }
}

/// A URL leads to its host, in lower case, where that is one of the six of GitHub's own, and to
/// the path and query that it has, or else to `/`.
pub proof fn law_destination(url: Uri, result: Option<(Upstream, String)>)
    requires
        match result {
            Some((upstream, target)) => destination(url@) == Some((upstream@, target@)),
            None => destination(url@) is None,
        },
    ensures
        result is Some <==> url.host is Some && {
            let name = lowercase(url.host->0@);
            ||| name == "github.com"@
            ||| name == "api.github.com"@
            ||| name == "raw.githubusercontent.com"@
            ||| name == "codeload.github.com"@
            ||| name == "objects.githubusercontent.com"@
            ||| name == "release-assets.githubusercontent.com"@
        },
        result matches Some((upstream, target)) ==> {
            &&& upstream.host@ == lowercase(url.host->0@)
            &&& target@ == match url.path_and_query {
                Some(target) => target@,
                None => "/"@,
            }
        },
{
    assert(url@.host == url.host.deep_view());
    assert(url@.path_and_query == url.path_and_query.deep_view());
}

/// A request path that holds a URL comes to an upstream and a target exactly where the URL can be
/// read, its host is one of the six of GitHub's own, and it has a path or nothing behind the host.
/// The upstream is then that host, in lower case, and the target the path of the URL with the
/// query.
pub proof fn law_github_url_target(uri: Uri, held: Seq<char>, result: Option<(Upstream, Uri)>)
    requires
        held_url(uri@.path_and_query) == Some(held),
    ensures
        target_view(result) == github_target(uri@.path_and_query) ==> match read_uri(held) {
            Some(url) => {
                let name = lowercase(url.host->0);
                let target = match url.path_and_query {
                    Some(target) => target,
                    None => "/"@,
                };
                let has_path = target.len() > 0 && target[0] == '/';
                &&& result is Some <==> url.host is Some && has_path && {
                    ||| name == "github.com"@
                    ||| name == "api.github.com"@
                    ||| name == "raw.githubusercontent.com"@
                    ||| name == "codeload.github.com"@
                    ||| name == "objects.githubusercontent.com"@
                    ||| name == "release-assets.githubusercontent.com"@
                }
                &&& result matches Some((upstream, path)) ==> {
                    &&& upstream.host@ == name
                    &&& path.text@ == target
                    &&& path.host is None
                    &&& path.path@ == before(target, '?')
                    &&& path.path_and_query matches Some(text) && text@ == target
                }
            },
            None => result is None,
        },
{
    reveal_strlit("/");
    if let Some(url) = read_uri(held) {
        let target = match url.path_and_query {
            Some(target) => target,
            None => "/"@,
        };
        if target.len() > 0 {
            assert(target.subrange(0, 1)[0] == target[0]);
            assert(target[0] == '/' ==> target.subrange(0, 1) =~= "/"@);
        }
        if let Some((upstream, path)) = result {
            assert(path@.host == path.host.deep_view());
            assert(path@.path_and_query == path.path_and_query.deep_view());
        }
    }
}

/// Without a URL in its path a request comes to no URL's target.
pub proof fn law_no_url_no_target(uri: Uri, result: Option<(Upstream, Uri)>)
    requires
        held_url(uri@.path_and_query) is None,
    ensures
        target_view(result) == github_target(uri@.path_and_query) ==> result is None,
{
}

/// A path holds a URL where a scheme follows its slash, or one of the six hosts of GitHub's own
/// stands between its slash and the next one.
pub proof fn law_url_format(uri: Uri, found: bool, url: Seq<char>)
    requires
        found == is_url_format(uri@.path),
    ensures
        uri.path@.len() == 0 || uri.path@[0] != '/' ==> !found,
        uri.path@ == "/"@ + url ==> (found <==> {
            let name = lowercase(before(url, '/'));
            ||| "https://"@.is_prefix_of(url)
            ||| "http://"@.is_prefix_of(url)
            ||| name == "github.com"@
            ||| name == "api.github.com"@
            ||| name == "raw.githubusercontent.com"@
            ||| name == "codeload.github.com"@
            ||| name == "objects.githubusercontent.com"@
            ||| name == "release-assets.githubusercontent.com"@
        }),
{
    reveal_strlit("/");
    law_stripped(uri.path@, "/"@, url);
    if uri.path@.len() > 0 {
        assert(uri.path@.subrange(0, 1)[0] == uri.path@[0]);
    }
}

/// A request target that names GHCR behind `/v2` loses that name; one that starts with the name
/// loses it too, and gets a slash where none follows the name but the end or a query. Every other
/// target is not for GHCR.
pub proof fn law_ghcr_text(uri: Uri, text: Option<String>, rest: Seq<char>)
    requires
        text.deep_view() == ghcr_text(uri@.path_and_query),
    ensures
        match uri.path_and_query {
            Some(target) => {
                &&& target@ == "/v2/ghcr.io"@ + rest ==> (text matches Some(text) && text@ == "/v2"@
                    + rest)
                &&& target@ == "/ghcr.io"@ + rest ==> {
                    &&& text matches Some(text)
                    &&& text@ == if rest.len() == 0 || rest[0] == '?' {
                        "/"@ + rest
                    } else {
                        rest
                    }
                }
                &&& !"/v2/ghcr.io"@.is_prefix_of(target@) && !"/ghcr.io"@.is_prefix_of(target@)
                    ==> text is None
            },
            None => text is None,
        },
{
    assert(uri@.path_and_query == uri.path_and_query.deep_view());
    if let Some(target) = uri.path_and_query {
        reveal_strlit("/v2/ghcr.io");
        reveal_strlit("/ghcr.io");
        reveal_strlit("?");
        law_stripped(target@, "/v2/ghcr.io"@, rest);
        law_stripped(target@, "/ghcr.io"@, rest);
        if target@ == "/ghcr.io"@ + rest && "/v2/ghcr.io"@.is_prefix_of(target@) {
            assert(target@.subrange(0, 11)[1] == target@[1]);
            assert(target@[1] == 'g');
        }
        if rest.len() > 0 {
            assert(rest.subrange(0, 1)[0] == rest[0]);
            assert(rest[0] == '?' ==> rest.subrange(0, 1) =~= "?"@);
        }
    }
}

/// The target that GHCR is asked for is what its text is read as, with the whole of that text.
pub proof fn law_ghcr_target(uri: Uri, target: Option<Uri>)
    ensures
        optional_target(target) == ghcr_target(uri@.path_and_query) ==> match ghcr_text(
            uri.path_and_query.deep_view(),
        ) {
            Some(text) => match read_uri(text) {
                Some(parts) => {
                    &&& target is Some
                    &&& target->0.text@ == text
                    &&& target->0.host.deep_view() == parts.host
                    &&& target->0.path@ == parts.path
                    &&& target->0.path_and_query.deep_view() == parts.path_and_query
                },
                None => target is None,
            },
            None => target is None,
        },
{
}

/// A response of the proxy itself has its status and its body, says that it is plain text and how
/// many bytes it has, in decimal digits, and is not to be stored.
pub proof fn law_status_response(response: StatusResponse, status: u16, body: Seq<char>)
    requires
        response@ == status_response(status, body),
    ensures
        response.status == status,
        response.body@ == body,
        response.headers@.len() == 3,
        response.headers@[0].name@ == "content-type"@,
        response.headers@[0].value matches Some(value) && value@ == "text/plain; charset=utf-8"@,
        response.headers@[1].name@ == "content-length"@,
        response.headers@[1].value matches Some(value) && {
            &&& number(value@) == encode_utf8(body).len()
            &&& forall|i: int| 0 <= i < value@.len() ==> '0' <= #[trigger] value@[i] <= '9'
            &&& value@.len() == 1 || value@[0] != '0'
        },
        response.headers@[2].name@ == "cache-control"@,
        response.headers@[2].value matches Some(value) && value@ == "no-store"@,
{
    law_decimal(encode_utf8(body).len());
    let headers = response@.headers;
    assert(headers.len() == 3);
    assert(headers[0] == response.headers@[0]@);
    assert(headers[1] == response.headers@[1]@);
    assert(headers[2] == response.headers@[2]@);
    assert(response.headers@[0]@.1 == response.headers@[0].value.deep_view());
    assert(response.headers@[1]@.1 == response.headers@[1].value.deep_view());
    assert(response.headers@[2]@.1 == response.headers@[2].value.deep_view());
}

/// Whether two optional URIs are the same in their text and in every part.
pub open spec fn same_uri(a: Option<Uri>, b: Option<Uri>) -> bool {
    match (a, b) {
        (Some(a), Some(b)) => {
            &&& a.text@ == b.text@
            &&& a.host.deep_view() == b.host.deep_view()
            &&& a.path@ == b.path@
            &&& a.path_and_query.deep_view() == b.path_and_query.deep_view()
        },
        (None, None) => true,
        _ => false,
    }
}

/// What a request comes to, case by case: a health check is answered; at the GitHub host a path
/// that holds a URL goes where the URL leads or is refused, and any other goes to GitHub as it is;
/// at the Docker host a target of GHCR goes to GHCR, and any other request to the registry as it
/// is; at the token host every request goes to the token service as it is; and at every other host
/// a request is refused.
pub proof fn law_decide(
    proxy: Proxy,
    uri: Uri,
    host: Seq<char>,
    ghcr: Option<Uri>,
    github: Option<(Upstream, Uri)>,
    decision: Decision,
)
    requires
        decision@ == proxy@.decide(uri@.path, host, optional_target(ghcr), target_view(github)),
    ensures
        ({
            let name = configured(host);
            if uri.path@ == "/healthz"@ {
                &&& decision matches Decision::Respond(response)
                &&& response.status == 200
                &&& response.body@ == "ok\n"@
            } else if name == proxy.github_host@ {
                if is_url_format(uri.path@) {
                    match github {
                        Some((to, path)) => {
                            &&& decision matches Decision::Forward { upstream, target }
                            &&& upstream.host@ == to.host@
                            &&& same_uri(target, Some(path))
                        },
                        None => {
                            &&& decision matches Decision::Respond(response)
                            &&& response.status == 400
                            &&& response.body@ == "github URL not allowed\n"@
                        },
                    }
                } else {
                    &&& decision matches Decision::Forward { upstream, target }
                    &&& upstream.host@ == "github.com"@
                    &&& target is None
                }
            } else if proxy.docker_host is Some && proxy.docker_host->0@ == name {
                &&& decision matches Decision::Forward { upstream, target }
                &&& upstream.host@ == if ghcr is Some {
                    "ghcr.io"@
                } else {
                    "registry-1.docker.io"@
                }
                &&& same_uri(target, ghcr)
            } else if proxy.docker_auth_host is Some && proxy.docker_auth_host->0@ == name {
                &&& decision matches Decision::Forward { upstream, target }
                &&& upstream.host@ == "auth.docker.io"@
                &&& target is None
            } else {
                &&& decision matches Decision::Respond(response)
                &&& response.status == 421
                &&& response.body@ == "host not allowed\n"@
            }
        }),
        decision matches Decision::Respond(response) ==> response@ == status_response(
            response.status,
            response.body@,
        ),
{
    lemma_host_lengths();
    assert(proxy@.docker_host == proxy.docker_host.deep_view());
    assert(proxy@.docker_auth_host == proxy.docker_auth_host.deep_view());
}

/// At a host that stands for the Docker token service every request but a health check is
/// forwarded to that service as it is, whatever its path.
pub proof fn law_token_requests(
    proxy: Proxy,
    uri: Uri,
    host: Seq<char>,
    ghcr: Option<Uri>,
    github: Option<(Upstream, Uri)>,
    decision: Decision,
)
    requires
        uri.path@ != "/healthz"@,
        proxy@.route(host) == Some("auth.docker.io"@),
        decision@ == proxy@.decide(uri@.path, host, optional_target(ghcr), target_view(github)),
    ensures
        decision matches Decision::Forward { upstream, target } && upstream.host@
            == "auth.docker.io"@ && target is None,
{
    lemma_host_lengths();
}

/// The host that a request is for is the whole text of its `Host` header, and nothing where that
/// header is absent or not text.
pub proof fn law_host_of_request(headers: http::HeaderMap<http::HeaderValue>, host: Seq<char>)
    requires
        holds_text(headers, "host"@, host) || host.len() == 0 && (forall|text: Seq<char>|
            !#[trigger] holds_text(headers, "host"@, text)),
    ensures
        host_text(headers) == host,
{
    reveal_strlit("host");
    law_header_text(headers, "host"@, host);
    if let Some(text) = header_text(headers, "host"@) {
        law_header_text(headers, "host"@, text);
        assert(holds_text(headers, "host"@, text));
    } else {
        assert(host =~= Seq::<char>::empty());
    }
}

/// A request comes to what the whole text of its `Host` header and its path and query stand for;
/// without such a text it is for the host with the empty name.
pub proof fn law_request_filter(
    proxy: Proxy,
    uri: Uri,
    headers: http::HeaderMap<http::HeaderValue>,
    host: Seq<char>,
    decision: Decision,
)
    requires
        holds_text(headers, "host"@, host) || host.len() == 0 && (forall|text: Seq<char>|
            !#[trigger] holds_text(headers, "host"@, text)),
    ensures
        decision@ == proxy@.decision(uri@, host_text(headers)) ==> {
            let name = configured(host);
            let path_and_query = uri.path_and_query.deep_view();
            if uri.path@ == "/healthz"@ {
                &&& decision matches Decision::Respond(response)
                &&& response.status == 200
                &&& response.body@ == "ok\n"@
            } else if name == proxy.github_host@ {
                if is_url_format(uri.path@) {
                    match github_target(path_and_query) {
                        Some((to, path)) => {
                            &&& decision matches Decision::Forward { upstream, target }
                            &&& upstream.host@ == to
                            &&& target matches Some(target)
                            &&& target.text@ == path.0
                            &&& target.host.deep_view() == path.1.host
                            &&& target.path@ == path.1.path
                            &&& target.path_and_query.deep_view() == path.1.path_and_query
                        },
                        None => {
                            &&& decision matches Decision::Respond(response)
                            &&& response.status == 400
                            &&& response.body@ == "github URL not allowed\n"@
                        },
                    }
                } else {
                    &&& decision matches Decision::Forward { upstream, target }
                    &&& upstream.host@ == "github.com"@
                    &&& target is None
                }
            } else if proxy.docker_host is Some && proxy.docker_host->0@ == name {
                match ghcr_target(path_and_query) {
                    Some(path) => {
                        &&& decision matches Decision::Forward { upstream, target }
                        &&& upstream.host@ == "ghcr.io"@
                        &&& target matches Some(target)
                        &&& target.text@ == path.0
                        &&& target.host.deep_view() == path.1.host
                        &&& target.path@ == path.1.path
                        &&& target.path_and_query.deep_view() == path.1.path_and_query
                    },
                    None => {
                        &&& decision matches Decision::Forward { upstream, target }
                        &&& upstream.host@ == "registry-1.docker.io"@
                        &&& target is None
                    },
                }
            } else if proxy.docker_auth_host is Some && proxy.docker_auth_host->0@ == name {
                &&& decision matches Decision::Forward { upstream, target }
                &&& upstream.host@ == "auth.docker.io"@
                &&& target is None
            } else {
                &&& decision matches Decision::Respond(response)
                &&& response.status == 421
                &&& response.body@ == "host not allowed\n"@
            }
        },
{
    lemma_host_lengths();
    law_host_of_request(headers, host);
    assert(proxy@.docker_host == proxy.docker_host.deep_view());
    assert(proxy@.docker_auth_host == proxy.docker_auth_host.deep_view());
}

/// A request whose `Host` header is the GitHub host that the proxy was given, letter for letter,
/// and whose path is one of a repository goes to GitHub as it is.
pub proof fn law_repository_request(
    proxy: Proxy,
    github: &str,
    docker: Option<&str>,
    docker_auth: Option<&str>,
    uri: Uri,
    repository: Seq<char>,
    headers: http::HeaderMap<http::HeaderValue>,
    decision: Decision,
)
    requires
        proxy@ == ProxyHosts::new(github@, optional(docker), optional(docker_auth)),
        holds_text(headers, "host"@, github@),
        uri.path@ == "/"@ + repository,
        uri.path@ != "/healthz"@,
        !"https://"@.is_prefix_of(repository),
        !"http://"@.is_prefix_of(repository),
        !({
            let name = lowercase(before(repository, '/'));
            ||| name == "github.com"@
            ||| name == "api.github.com"@
            ||| name == "raw.githubusercontent.com"@
            ||| name == "codeload.github.com"@
            ||| name == "objects.githubusercontent.com"@
            ||| name == "release-assets.githubusercontent.com"@
        }),
    ensures
        decision@ == proxy@.decision(uri@, host_text(headers)) ==> {
            &&& decision matches Decision::Forward { upstream, target }
            &&& upstream.host@ == "github.com"@
            &&& target is None
        },
{
    law_new_proxy(proxy, github, docker, docker_auth);
    law_url_format(uri, is_url_format(uri@.path), repository);
    law_request_filter(proxy, uri, headers, github@, decision);
}

/// Requests for the same URI at two hosts with the same name come to the same.
pub proof fn law_same_name_same_decision(
    hosts: ProxyHosts,
    uri: Uri,
    one: Seq<char>,
    other: Seq<char>,
)
    requires
        configured(one) == configured(other),
    ensures
        hosts.decision(uri@, one) == hosts.decision(uri@, other),
{
}

/// A request at the GitHub host whose path holds an `http` or `https` URL is forwarded only to
/// one of the six hosts of GitHub's own, and answered with 400 where it is not forwarded.
pub proof fn law_url_leads_to_github(
    proxy: Proxy,
    uri: Uri,
    host: Seq<char>,
    scheme: Seq<char>,
    url: Seq<char>,
    decision: Decision,
)
    requires
        scheme == "https://"@ || scheme == "http://"@,
        uri.path@ == "/"@ + (scheme + url),
        configured(host) == proxy.github_host@,
    ensures
        decision@ == proxy@.decision(uri@, host) ==> match decision {
            Decision::Forward { upstream, target } => {
                let name = upstream.host@;
                &&& target is Some
                &&& {
                    ||| name == "github.com"@
                    ||| name == "api.github.com"@
                    ||| name == "raw.githubusercontent.com"@
                    ||| name == "codeload.github.com"@
                    ||| name == "objects.githubusercontent.com"@
                    ||| name == "release-assets.githubusercontent.com"@
                }
            },
            Decision::Respond(response) => response.status == 400 && response.body@
                == "github URL not allowed\n"@,
        },
{
    lemma_host_lengths();
    lemma_after_scheme(url);
    lemma_not_health_check(scheme, url);
    law_stripped(uri.path@, "/"@, scheme + url);
}

proof fn lemma_not_health_check(scheme: Seq<char>, url: Seq<char>)
    requires
        scheme == "https://"@ || scheme == "http://"@,
    ensures
        "/"@ + (scheme + url) != "/healthz"@,
{
    reveal_strlit("/");
    reveal_strlit("https://");
    reveal_strlit("http://");
    reveal_strlit("/healthz");
    assert(("/"@ + (scheme + url))[2] == 't');
}

/// A request at the GitHub host whose path holds an `http` or `https` URL of any plain host but
/// the six of GitHub's own is answered with 400.
pub proof fn law_foreign_url_request(
    proxy: Proxy,
    uri: Uri,
    host: Seq<char>,
    scheme: Seq<char>,
    name: Seq<char>,
    rest: Seq<char>,
    decision: Decision,
)
    requires
        scheme == "https://"@ || scheme == "http://"@,
        is_plain_host(name),
        lowercase(name) != "github.com"@,
        lowercase(name) != "api.github.com"@,
        lowercase(name) != "raw.githubusercontent.com"@,
        lowercase(name) != "codeload.github.com"@,
        lowercase(name) != "objects.githubusercontent.com"@,
        lowercase(name) != "release-assets.githubusercontent.com"@,
        rest.len() == 0 || rest[0] == '/' || rest[0] == '?' || rest[0] == '#',
        uri.path_and_query.deep_view() == Some("/"@ + (scheme + (name + rest))),
        uri.path@ == before("/"@ + (scheme + (name + rest)), '?'),
        configured(host) == proxy.github_host@,
    ensures
        decision@ == proxy@.decision(uri@, host) ==> {
            &&& decision matches Decision::Respond(response)
            &&& response.status == 400
            &&& response.body@ == "github URL not allowed\n"@
        },
{
    law_foreign_url_is_refused(proxy@, uri@, host, scheme, name, rest);
}

/// A request at the GitHub host whose path holds a URL of one of the six hosts of GitHub's own is
/// forwarded to that host, for the path and query of the URL, or for `/` where it has neither.
pub proof fn law_github_url_request(
    proxy: Proxy,
    uri: Uri,
    host: Seq<char>,
    scheme: Seq<char>,
    name: Seq<char>,
    rest: Seq<char>,
    decision: Decision,
)
    requires
        scheme == "https://"@ || scheme == "http://"@ || scheme.len() == 0,
        ({
            let name = lowercase(name);
            ||| name == "github.com"@
            ||| name == "api.github.com"@
            ||| name == "raw.githubusercontent.com"@
            ||| name == "codeload.github.com"@
            ||| name == "objects.githubusercontent.com"@
            ||| name == "release-assets.githubusercontent.com"@
        }),
        rest.len() == 0 || rest[0] == '/',
        !rest.contains('#'),
        is_path_and_query(rest),
        fits("https://"@ + (name + rest)),
        uri.path_and_query.deep_view() == Some("/"@ + (scheme + (name + rest))),
        uri.path@ == before("/"@ + (scheme + (name + rest)), '?'),
        configured(host) == proxy.github_host@,
    ensures
        decision@ == proxy@.decision(uri@, host) ==> {
            let path = if rest.len() == 0 {
                "/"@
            } else {
                rest
            };
            &&& decision matches Decision::Forward { upstream, target }
            &&& upstream.host@ == lowercase(name)
            &&& target matches Some(target)
            &&& target.text@ == path
            &&& target.host is None
            &&& target.path@ == before(path, '?')
            &&& target.path_and_query.deep_view() == Some(path)
        },
{
    law_github_url_is_forwarded(proxy@, uri@, host, scheme, name, rest);
}

} // verus!
