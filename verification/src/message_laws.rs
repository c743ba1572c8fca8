//! What the headers of requests and responses are read as, and what becomes of them.

use crate::filter::error_line;
use crate::filter::request_edits;
use crate::header::HeaderEdit;
use crate::header::applied;
use crate::header::edits;
use crate::header::first_values;
use crate::header::header_text;
use crate::host_laws::lemma_host_lengths;
use crate::proxy::Proxy;
use crate::proxy::ProxyHosts;
use crate::proxy::RequestContext;
use crate::proxy::optional;
use crate::response_laws::has_value;
use crate::response_laws::law_foreign_redirect_is_kept;
use crate::response_laws::law_github_redirect_is_rewritten;
use crate::response_laws::law_response_headers;
use crate::response_laws::same_header;
use crate::text::before;
use crate::text::lowercase;
use crate::text::replaced;
use crate::upstream::Upstream;
use crate::upstream::upstream_host;
use crate::uri::Uri;
use crate::uri::fits;
use crate::uri::is_path_and_query;
use crate::uri::is_plain_host;
use crate::uri::read_uri;
use vstd::std_specs::cmp::PartialEqSpec;
use vstd::prelude::*;

verus! {

/// Whether the first value of the header `name` is `text`: visible ASCII, spaces and tabs, with
/// one byte for each character.
pub open spec fn holds_text(
    headers: http::HeaderMap<http::HeaderValue>,
    name: Seq<char>,
    text: Seq<char>,
) -> bool {
    let bytes = first_values(headers)[name];
    &&& first_values(headers).contains_key(name)
    &&& bytes.len() == text.len()
    &&& forall|i: int|
        0 <= i < bytes.len() ==> {
            &&& 32 <= #[trigger] bytes[i] <= 126 || bytes[i] == 9
            &&& text[i] as int == bytes[i] as int
        }
}

/// The text of a header is the whole of its first value, character by character, and there is
/// none where the header is absent or a byte of the value is not text. Names are compared without
/// regard to case.
pub proof fn law_header_text(
    headers: http::HeaderMap<http::HeaderValue>,
    name: Seq<char>,
    text: Seq<char>,
)
    ensures
        header_text(headers, name) == Some(text) <==> holds_text(headers, lowercase(name), text),
        (forall|i: int| 0 <= i < name.len() ==> !('A' <= #[trigger] name[i] <= 'Z')) ==> (
        header_text(headers, name) == Some(text) <==> holds_text(headers, name, text)),
        header_text(headers, name) matches Some(text) ==> holds_text(
            headers,
            lowercase(name),
            text,
        ),
{
    let bytes = first_values(headers)[lowercase(name)];
    if holds_text(headers, lowercase(name), text) {
        assert(Seq::new(bytes.len(), |i: int| bytes[i] as char) =~= text);
    }
    if forall|i: int| 0 <= i < name.len() ==> !('A' <= #[trigger] name[i] <= 'Z') {
        assert(lowercase(name) =~= name);
    }
}

/// Two upstreams are equal exactly where their hosts are the same text.
pub proof fn law_upstream_equality(one: Upstream, other: Upstream)
    ensures
        one.eq_spec(&other) <==> one.host@ == other.host@,
{
}

/// A location is sent to the proxy, as a whole, where it can be read as a URI with one of the six
/// hosts of GitHub's own, and stays as it is otherwise.
pub proof fn law_redirect(proxy: Proxy, location: Seq<char>, rewritten: Option<String>)
    ensures
        rewritten.deep_view() == proxy@.redirect(location) ==> {
            let url = read_uri(location);
            &&& rewritten is Some <==> (url is Some && url->0.host is Some && {
                let name = lowercase(url->0.host->0);
                ||| name == "github.com"@
                ||| name == "api.github.com"@
                ||| name == "raw.githubusercontent.com"@
                ||| name == "codeload.github.com"@
                ||| name == "objects.githubusercontent.com"@
                ||| name == "release-assets.githubusercontent.com"@
            })
            &&& rewritten matches Some(text) ==> text@ == "https://"@ + proxy.github_host@ + "/"@
                + location
        },
{
}

/// So it is with a location and what it was read as.
pub proof fn law_redirect_of(
    proxy: Proxy,
    location: Seq<char>,
    url: Uri,
    rewritten: Option<String>,
)
    requires
        rewritten.deep_view() == proxy@.redirect_of(location, url@),
    ensures
        rewritten is Some <==> url.host is Some && {
            let name = lowercase(url.host->0@);
            ||| name == "github.com"@
            ||| name == "api.github.com"@
            ||| name == "raw.githubusercontent.com"@
            ||| name == "codeload.github.com"@
            ||| name == "objects.githubusercontent.com"@
            ||| name == "release-assets.githubusercontent.com"@
        },
        rewritten matches Some(text) ==> text@ == "https://"@ + proxy.github_host@ + "/"@
            + location,
{
    assert(url@.host == url.host.deep_view());
}

/// A challenge of GHCR names the Docker host and the path there that leads to the token service of
/// GHCR, wherever it named that service; any other challenge names the token host of the proxy
/// wherever it named the token service of Docker Hub, where the proxy has such a host.
pub proof fn law_challenge(
    proxy: Proxy,
    upstream: Upstream,
    challenge: Seq<char>,
    rewritten: Seq<char>,
)
    requires
        upstream.host@ == "ghcr.io"@ ==> proxy.docker_host is Some,
        rewritten == proxy@.challenge(upstream@, challenge),
    ensures
        rewritten == if upstream.host@ == "ghcr.io"@ {
            replaced(
                challenge,
                "https://ghcr.io/token"@,
                "https://"@ + proxy.docker_host->0@ + "/ghcr.io/token"@,
            )
        } else if proxy.docker_auth_host is Some {
            replaced(
                challenge,
                "https://auth.docker.io/"@,
                "https://"@ + proxy.docker_auth_host->0@ + "/"@,
            )
        } else {
            challenge
        },
{
    assert(proxy@.docker_host == proxy.docker_host.deep_view());
    assert(proxy@.docker_auth_host == proxy.docker_auth_host.deep_view());
}

/// The changes to a forwarded request: its host becomes its upstream, and three headers go.
pub proof fn law_request_changes(upstream: Upstream, changes: Vec<HeaderEdit>)
    requires
        edits(changes) == request_edits(upstream@),
    ensures
        changes@.len() == 4,
        changes@[0].name@ == "host"@,
        changes@[0].value matches Some(value) && value@ == upstream.host@,
        changes@[1].name@ == "via"@,
        changes@[1].value is None,
        changes@[2].name@ == "x-forwarded-host"@,
        changes@[2].value is None,
        changes@[3].name@ == "x-forwarded-server"@,
        changes@[3].value is None,
{
    let list = edits(changes);
    assert(list.len() == 4);
    assert(list[0] == changes@[0]@ && list[1] == changes@[1]@);
    assert(list[2] == changes@[2]@ && list[3] == changes@[3]@);
    assert(changes@[0]@.1 == changes@[0].value.deep_view());
    assert(changes@[1]@.1 == changes@[1].value.deep_view());
    assert(changes@[2]@.1 == changes@[2].value.deep_view());
    assert(changes@[3]@.1 == changes@[3].value.deep_view());
}

proof fn lemma_response_list(
    hosts: ProxyHosts,
    upstream: Option<Seq<char>>,
    redirect: Option<Seq<char>>,
    challenge: Option<Seq<char>>,
)
    ensures
        ({
            let list = hosts.response_edits(upstream, redirect, challenge);
            let redirected = upstream is Some && upstream->0 != "registry-1.docker.io"@
                && redirect is Some;
            let challenged = upstream is Some && (upstream->0 == "registry-1.docker.io"@
                || upstream->0 == "ghcr.io"@) && challenge is Some;
            let next: int = if redirected {
                4
            } else {
                2
            };
            &&& list.len() == if challenged {
                next + 1
            } else {
                next
            }
            &&& list[0] == ("server"@, None::<Seq<char>>)
            &&& list[1] == ("via"@, None::<Seq<char>>)
            &&& redirected ==> list[2] == ("location"@, redirect)
            &&& redirected ==> list[3] == ("cache-control"@, Some("no-store"@))
            &&& challenged ==> list[next] == (
                "www-authenticate"@,
                Some(hosts.challenge(upstream->0, challenge->0)),
            )
        }),
{
    lemma_host_lengths();
}

/// The changes to a response, one by one: two headers go; the redirect, where there is another to
/// send it to and the upstream is not the Docker registry, is set and not to be stored; and the
/// challenge, where there is one and the upstream is a registry, is set last.
pub proof fn law_response_changes(
    proxy: Proxy,
    ctx: RequestContext,
    redirect: Option<String>,
    challenge: Option<String>,
    changes: Vec<HeaderEdit>,
)
    requires
        edits(changes) == proxy@.response_edits(
            upstream_host(ctx.upstream),
            redirect.deep_view(),
            challenge.deep_view(),
        ),
    ensures
        ({
            let redirected = ctx.upstream is Some && ctx.upstream->0.host@
                != "registry-1.docker.io"@ && redirect is Some;
            let challenged = ctx.upstream is Some && (ctx.upstream->0.host@
                == "registry-1.docker.io"@ || ctx.upstream->0.host@ == "ghcr.io"@)
                && challenge is Some;
            let next: int = if redirected {
                4
            } else {
                2
            };
            &&& changes@.len() == if challenged {
                next + 1
            } else {
                next
            }
            &&& changes@[0].name@ == "server"@ && changes@[0].value is None
            &&& changes@[1].name@ == "via"@ && changes@[1].value is None
            &&& redirected ==> {
                &&& changes@[2].name@ == "location"@
                &&& changes@[2].value.deep_view() == redirect.deep_view()
                &&& changes@[3].name@ == "cache-control"@
                &&& changes@[3].value.deep_view() == Some("no-store"@)
            }
            &&& challenged ==> {
                &&& changes@[next].name@ == "www-authenticate"@
                &&& changes@[next].value.deep_view() == Some(
                    proxy@.challenge(ctx.upstream->0.host@, challenge->0@),
                )
            }
        }),
{
    let list = edits(changes);
    lemma_response_list(
        proxy@,
        upstream_host(ctx.upstream),
        redirect.deep_view(),
        challenge.deep_view(),
    );
    assert(list.len() == changes@.len());
    assert forall|i: int| 0 <= i < list.len() implies list[i] == (
        (#[trigger] changes@[i]).name@,
        changes@[i].value.deep_view(),
    ) by {
        assert(list[i] == changes@[i]@);
    }
}

/// The changes to a response from its own headers. Where the `Location` header is an `http` or
/// `https` URL of one of the six hosts of GitHub's own, and the upstream is not the Docker
/// registry, the header becomes the address of the proxy with the whole of that text as its path,
/// and the response is not to be stored.
pub proof fn law_location_is_rewritten(
    proxy: Proxy,
    ctx: RequestContext,
    headers: http::HeaderMap<http::HeaderValue>,
    scheme: Seq<char>,
    name: Seq<char>,
    rest: Seq<char>,
    changes: Vec<HeaderEdit>,
    all: Map<Seq<char>, Seq<Seq<char>>>,
)
    requires
        holds_text(headers, "location"@, scheme + (name + rest)),
        scheme == "https://"@ || scheme == "http://"@,
        ({
            let name = lowercase(name);
            ||| name == "github.com"@
            ||| name == "api.github.com"@
            ||| name == "raw.githubusercontent.com"@
            ||| name == "codeload.github.com"@
            ||| name == "objects.githubusercontent.com"@
            ||| name == "release-assets.githubusercontent.com"@
        }),
        rest.len() == 0 || rest[0] == '/' || rest[0] == '?' || rest[0] == '#',
        is_path_and_query(before(rest, '#')),
        fits(scheme + (name + rest)),
        ctx.upstream is Some,
        ctx.upstream->0.host@ != "registry-1.docker.io"@,
    ensures
        edits(changes) == proxy@.response_edits(
            upstream_host(ctx.upstream),
            proxy@.response_redirect(header_text(headers, "location"@)),
            header_text(headers, "www-authenticate"@),
        ) ==> {
            let after = applied(edits(changes), all);
            &&& changes@.len() >= 4
            &&& changes@[2].name@ == "location"@
            &&& changes@[2].value.deep_view() == Some(
                "https://"@ + proxy.github_host@ + "/"@ + (scheme + (name + rest)),
            )
            &&& has_value(
                after,
                "location"@,
                "https://"@ + proxy.github_host@ + "/"@ + (scheme + (name + rest)),
            )
            &&& has_value(after, "cache-control"@, "no-store"@)
        },
{
    reveal_strlit("location");
    let location = scheme + (name + rest);
    law_header_text(headers, "location"@, location);
    law_github_redirect_is_rewritten(proxy@, scheme, name, rest);
    let redirect = proxy@.response_redirect(header_text(headers, "location"@));
    let challenge = header_text(headers, "www-authenticate"@);
    lemma_other_header();
    law_response_headers(
        proxy@,
        upstream_host(ctx.upstream),
        redirect,
        challenge,
        all,
        Seq::<char>::empty(),
    );
    let list = proxy@.response_edits(upstream_host(ctx.upstream), redirect, challenge);
    if edits(changes) == list {
        assert(list.len() >= 4);
        assert(list[2] == changes@[2]@);
        assert(changes@[2]@.1 == changes@[2].value.deep_view());
    }
}

proof fn lemma_other_header()
    ensures
        Seq::<char>::empty() != "server"@,
        Seq::<char>::empty() != "via"@,
        Seq::<char>::empty() != "location"@,
        Seq::<char>::empty() != "cache-control"@,
        Seq::<char>::empty() != "www-authenticate"@,
{
    reveal_strlit("server");
    reveal_strlit("via");
    reveal_strlit("location");
    reveal_strlit("cache-control");
    reveal_strlit("www-authenticate");
    let other = Seq::<char>::empty();
    assert(other.len() == 0);
    assert("server"@.len() == 6 && "via"@.len() == 3 && "location"@.len() == 8);
    assert("cache-control"@.len() == 13 && "www-authenticate"@.len() == 16);
}

/// Where the `Location` header is an `http` or `https` URL of any plain host but the six of
/// GitHub's own, where it is absent or not text, and where the response is one of the Docker
/// registry, the header stays as it is.
pub proof fn law_location_is_kept(
    proxy: Proxy,
    ctx: RequestContext,
    headers: http::HeaderMap<http::HeaderValue>,
    scheme: Seq<char>,
    name: Seq<char>,
    rest: Seq<char>,
    changes: Vec<HeaderEdit>,
    all: Map<Seq<char>, Seq<Seq<char>>>,
)
    requires
        ({
            ||| forall|text: Seq<char>| !#[trigger] holds_text(headers, "location"@, text)
            ||| ctx.upstream is None
            ||| ctx.upstream->0.host@ == "registry-1.docker.io"@
            ||| {
                &&& holds_text(headers, "location"@, scheme + (name + rest))
                &&& scheme == "https://"@ || scheme == "http://"@
                &&& is_plain_host(name)
                &&& lowercase(name) != "github.com"@
                &&& lowercase(name) != "api.github.com"@
                &&& lowercase(name) != "raw.githubusercontent.com"@
                &&& lowercase(name) != "codeload.github.com"@
                &&& lowercase(name) != "objects.githubusercontent.com"@
                &&& lowercase(name) != "release-assets.githubusercontent.com"@
                &&& rest.len() == 0 || rest[0] == '/' || rest[0] == '?' || rest[0] == '#'
            }
        }),
    ensures
        edits(changes) == proxy@.response_edits(
            upstream_host(ctx.upstream),
            proxy@.response_redirect(header_text(headers, "location"@)),
            header_text(headers, "www-authenticate"@),
        ) ==> {
            let after = applied(edits(changes), all);
            &&& same_header(after, all, "location"@)
            &&& same_header(after, all, "cache-control"@)
        },
{
    reveal_strlit("location");
    law_header_text(headers, "location"@, scheme + (name + rest));
    if let Some(text) = header_text(headers, "location"@) {
        law_header_text(headers, "location"@, text);
        assert(holds_text(headers, "location"@, text));
        if ctx.upstream is Some && ctx.upstream->0.host@ != "registry-1.docker.io"@ {
            law_foreign_redirect_is_kept(proxy@, scheme, name, rest);
        }
    }
    lemma_other_header();
    law_response_headers(
        proxy@,
        upstream_host(ctx.upstream),
        proxy@.response_redirect(header_text(headers, "location"@)),
        header_text(headers, "www-authenticate"@),
        all,
        Seq::<char>::empty(),
    );
}

/// The redirect and the challenge of a response are those of its own headers: the one of the
/// whole text of the `Location` header, the other the whole text of the `WWW-Authenticate` header.
pub proof fn law_response_filter(
    proxy: Proxy,
    ctx: RequestContext,
    headers: http::HeaderMap<http::HeaderValue>,
    location: Seq<char>,
    challenge: Seq<char>,
    changes: Vec<HeaderEdit>,
)
    requires
        ctx.upstream is Some,
    ensures
        edits(changes) == proxy@.response_edits(
            upstream_host(ctx.upstream),
            proxy@.response_redirect(header_text(headers, "location"@)),
            header_text(headers, "www-authenticate"@),
        ) ==> {
            let upstream = ctx.upstream->0;
            &&& holds_text(headers, "location"@, location) && upstream.host@
                != "registry-1.docker.io"@ ==> match proxy@.redirect(location) {
                Some(rewritten) => {
                    &&& changes@.len() >= 4
                    &&& changes@[2].name@ == "location"@
                    &&& changes@[2].value.deep_view() == Some(rewritten)
                    &&& changes@[3].name@ == "cache-control"@
                    &&& changes@[3].value.deep_view() == Some("no-store"@)
                },
                None => forall|i: int|
                    0 <= i < changes@.len() ==> (#[trigger] changes@[i]).name@ != "location"@,
            }
            &&& holds_text(headers, "www-authenticate"@, challenge) && (upstream.host@
                == "registry-1.docker.io"@ || upstream.host@ == "ghcr.io"@) ==> {
                &&& changes@.len() >= 3
                &&& changes@.last().name@ == "www-authenticate"@
                &&& changes@.last().value.deep_view() == Some(
                    proxy@.challenge(upstream.host@, challenge),
                )
            }
            &&& upstream.host@ != "registry-1.docker.io"@ && upstream.host@ != "ghcr.io"@ || (
            forall|text: Seq<char>| !#[trigger] holds_text(headers, "www-authenticate"@, text))
                ==> forall|i: int|
                0 <= i < changes@.len() ==> (#[trigger] changes@[i]).name@ != "www-authenticate"@
        },
{
    lemma_host_lengths();
    reveal_strlit("server");
    reveal_strlit("via");
    reveal_strlit("location");
    reveal_strlit("cache-control");
    reveal_strlit("www-authenticate");
    law_header_text(headers, "location"@, location);
    law_header_text(headers, "www-authenticate"@, challenge);
    if let Some(text) = header_text(headers, "www-authenticate"@) {
        law_header_text(headers, "www-authenticate"@, text);
        assert(holds_text(headers, "www-authenticate"@, text));
    }
    let redirect = proxy@.response_redirect(header_text(headers, "location"@));
    let held = header_text(headers, "www-authenticate"@);
    let list = proxy@.response_edits(upstream_host(ctx.upstream), redirect, held);
    if edits(changes) == list {
        lemma_response_list(proxy@, upstream_host(ctx.upstream), redirect, held);
        assert(list.len() == changes@.len());
        assert forall|i: int| 0 <= i < changes@.len() implies list[i] == (
            (#[trigger] changes@[i]).name@,
            changes@[i].value.deep_view(),
        ) by {
            assert(list[i] == changes@[i]@);
        }
    }
}

/// A failed request is logged with the host of its upstream, or with `none` where it has no
/// upstream, with its path and with the error; any other request is not logged.
pub proof fn law_logging(
    ctx: RequestContext,
    path: Seq<char>,
    error: Option<&str>,
    line: Option<String>,
)
    requires
        line.deep_view() == match optional(error) {
            Some(error) => Some(error_line(upstream_host(ctx.upstream), path, error)),
            None => None,
        },
    ensures
        line is Some <==> error is Some,
        line matches Some(line) ==> line@ == match ctx.upstream {
            Some(upstream) => "proxy error upstream="@ + upstream.host@ + " path="@ + path
                + " error="@ + error->0@,
            None => "proxy error upstream=none path="@ + path + " error="@ + error->0@,
        },
{
    reveal_strlit("proxy error upstream=");
    reveal_strlit("none");
    reveal_strlit(" path=");
    reveal_strlit("proxy error upstream=none path=");
    assert("proxy error upstream="@ + "none"@ + " path="@ =~= "proxy error upstream=none path="@);
}

} // verus!
