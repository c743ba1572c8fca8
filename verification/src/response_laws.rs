//! What holds of the headers of requests and responses, and of the challenges in them.

use crate::filter::request_edits;
use crate::github::is_official;
use crate::header::Edit;
use crate::header::applied;
use crate::host_laws::lemma_host_lengths;
use crate::proxy::ProxyHosts;
use crate::request_laws::lemma_official_name;
use crate::request_laws::lemma_read_plain_url;
use crate::text::before;
use crate::text::lowercase;
use crate::text::replaced;
use crate::upstream::DOCKER_REGISTRY;
use crate::upstream::GHCR;
use crate::uri::fits;
use crate::uri::is_path_and_query;
use crate::uri::is_plain_host;
use vstd::prelude::*;

verus! {

/// Whether `part` stands in a text at `at`.
pub open spec fn stands_at(s: Seq<char>, part: Seq<char>, at: int) -> bool {
    part.is_prefix_of(s.skip(at))
}

proof fn lemma_replaced_absent(s: Seq<char>, from: Seq<char>, to: Seq<char>)
    requires
        from.len() > 0,
        forall|i: int| 0 <= i <= s.len() ==> !stands_at(s, from, i),
    ensures
        replaced(s, from, to) == s,
    decreases s.len(),
{
    if s.len() > 0 {
        assert(s.skip(0) == s);
        assert(!stands_at(s, from, 0));
        let rest = s.skip(1);
        assert forall|i: int| 0 <= i <= rest.len() implies !stands_at(rest, from, i) by {
            assert(rest.skip(i) == s.skip(i + 1));
            assert(!stands_at(s, from, i + 1));
        }
        lemma_replaced_absent(rest, from, to);
        assert(seq![s[0]] + rest == s);
    }
}

proof fn lemma_replaced_once(a: Seq<char>, b: Seq<char>, from: Seq<char>, to: Seq<char>)
    requires
        from.len() > 0,
        forall|i: int|
            0 <= i <= (a + from + b).len() && i != a.len() ==> !stands_at(a + from + b, from, i),
    ensures
        replaced(a + from + b, from, to) == a + to + b,
    decreases a.len(),
{
    let s = a + from + b;
    assert(s.skip(0) == s);
    if a.len() == 0 {
        assert(s.subrange(0, from.len() as int) == from);
        let rest = s.skip(from.len() as int);
        assert(rest == b);
        assert forall|i: int| 0 <= i <= b.len() implies !stands_at(b, from, i) by {
            assert(b.skip(i) == s.skip(from.len() + i));
            assert(!stands_at(s, from, from.len() + i));
        }
        lemma_replaced_absent(b, from, to);
        assert(a + to + b == to + b);
    } else {
        assert(!stands_at(s, from, 0));
        let shorter = a.skip(1);
        let rest = shorter + from + b;
        assert(s.skip(1) == rest);
        assert forall|i: int| 0 <= i <= rest.len() && i != shorter.len() implies !stands_at(
            rest,
            from,
            i,
        ) by {
            assert(rest.skip(i) == s.skip(i + 1));
            assert(!stands_at(s, from, i + 1));
        }
        lemma_replaced_once(shorter, b, from, to);
        assert(seq![s[0]] + (shorter + to + b) == a + to + b);
    }
}

/// How the challenges of an upstream name its token service.
pub open spec fn token_service(upstream: Seq<char>) -> Seq<char> {
    if upstream == GHCR@ {
        "https://ghcr.io/token"@
    } else {
        "https://auth.docker.io/"@
    }
}

/// A challenge of Docker Hub that names its token service once names the proxy's own host for it
/// instead; all else in it stays.
pub proof fn law_docker_challenge(
    hosts: ProxyHosts,
    auth_host: Seq<char>,
    a: Seq<char>,
    b: Seq<char>,
)
    requires
        hosts.docker_auth_host == Some(auth_host),
        ({
            let challenge = a + "https://auth.docker.io/"@ + b;
            forall|i: int|
                0 <= i <= challenge.len() && i != a.len() ==> !stands_at(
                    challenge,
                    "https://auth.docker.io/"@,
                    i,
                )
        }),
    ensures
        hosts.challenge(DOCKER_REGISTRY@, a + "https://auth.docker.io/"@ + b) == a + ("https://"@
            + auth_host + "/"@) + b,
{
    reveal_strlit("https://auth.docker.io/");
    lemma_host_lengths();
    lemma_replaced_once(a, b, "https://auth.docker.io/"@, "https://"@ + auth_host + "/"@);
}

/// A challenge of GHCR that names its token service once names instead the path of the Docker
/// host that leads to it; all else in it stays.
pub proof fn law_ghcr_challenge(
    hosts: ProxyHosts,
    docker_host: Seq<char>,
    a: Seq<char>,
    b: Seq<char>,
)
    requires
        hosts.docker_host == Some(docker_host),
        ({
            let challenge = a + "https://ghcr.io/token"@ + b;
            forall|i: int|
                0 <= i <= challenge.len() && i != a.len() ==> !stands_at(
                    challenge,
                    "https://ghcr.io/token"@,
                    i,
                )
        }),
    ensures
        hosts.challenge(GHCR@, a + "https://ghcr.io/token"@ + b) == a + ("https://"@ + docker_host
            + "/ghcr.io/token"@) + b,
{
    reveal_strlit("https://ghcr.io/token");
    lemma_replaced_once(
        a,
        b,
        "https://ghcr.io/token"@,
        "https://"@ + docker_host + "/ghcr.io/token"@,
    );
}

/// A challenge that names no token service stays as it is, and so does one of Docker Hub where
/// the proxy has no host for the token service.
pub proof fn law_other_challenge_is_kept(
    hosts: ProxyHosts,
    upstream: Seq<char>,
    challenge: Seq<char>,
)
    requires
        upstream == DOCKER_REGISTRY@ || upstream == GHCR@,
        upstream == DOCKER_REGISTRY@ && hosts.docker_auth_host is None || (forall|i: int|
            0 <= i <= challenge.len() ==> !stands_at(challenge, token_service(upstream), i)),
    ensures
        hosts.challenge(upstream, challenge) == challenge,
{
    reveal_strlit("https://ghcr.io/token");
    reveal_strlit("https://auth.docker.io/");
    lemma_host_lengths();
    let service = token_service(upstream);
    if upstream == GHCR@ {
        assert(service == "https://ghcr.io/token"@);
        lemma_replaced_absent(
            challenge,
            "https://ghcr.io/token"@,
            "https://"@ + hosts.docker_host->0 + "/ghcr.io/token"@,
        );
    } else if let Some(host) = hosts.docker_auth_host {
        assert(service == "https://auth.docker.io/"@);
        lemma_replaced_absent(challenge, "https://auth.docker.io/"@, "https://"@ + host + "/"@);
    }
}

/// A header that no change names stays as it is.
proof fn lemma_untouched(
    edits: Seq<Edit>,
    headers: Map<Seq<char>, Seq<Seq<char>>>,
    name: Seq<char>,
)
    requires
        forall|i: int| 0 <= i < edits.len() ==> (#[trigger] edits[i]).0 != name,
    ensures
        same_header(applied(edits, headers), headers, name),
    decreases edits.len(),
{
    if edits.len() > 0 {
        assert(edits.last().0 != name);
        assert forall|i: int| 0 <= i < edits.drop_last().len() implies (
        #[trigger] edits.drop_last()[i]).0 != name by {
            assert(edits.drop_last()[i] == edits[i]);
        }
        lemma_untouched(edits.drop_last(), headers, name);
    }
}

/// Of the changes to one header the last counts.
proof fn lemma_last_edit(
    edits: Seq<Edit>,
    headers: Map<Seq<char>, Seq<Seq<char>>>,
    name: Seq<char>,
    at: int,
)
    requires
        0 <= at < edits.len(),
        edits[at].0 == name,
        forall|i: int| at < i < edits.len() ==> (#[trigger] edits[i]).0 != name,
    ensures
        match edits[at].1 {
            Some(value) => has_value(applied(edits, headers), name, value),
            None => !applied(edits, headers).contains_key(name),
        },
    decreases edits.len(),
{
    if at < edits.len() - 1 {
        assert(edits.last().0 != name);
        assert forall|i: int| at < i < edits.drop_last().len() implies (
        #[trigger] edits.drop_last()[i]).0 != name by {
            assert(edits.drop_last()[i] == edits[i]);
        }
        lemma_last_edit(edits.drop_last(), headers, name, at);
    }
}

/// Whether a header is the same in two collections of headers.
pub open spec fn same_header(
    after: Map<Seq<char>, Seq<Seq<char>>>,
    before: Map<Seq<char>, Seq<Seq<char>>>,
    name: Seq<char>,
) -> bool {
    &&& after.contains_key(name) == before.contains_key(name)
    &&& before.contains_key(name) ==> after[name] == before[name]
}

/// Whether a header has one value.
pub open spec fn has_value(
    headers: Map<Seq<char>, Seq<Seq<char>>>,
    name: Seq<char>,
    value: Seq<char>,
) -> bool {
    headers.contains_key(name) && headers[name] == seq![value]
}

/// A forwarded request names its upstream as its host, carries none of the headers that name
/// the proxies before, and has its other headers as they were.
pub proof fn law_request_headers(
    upstream: Seq<char>,
    headers: Map<Seq<char>, Seq<Seq<char>>>,
    other: Seq<char>,
)
    requires
        other != "host"@,
        other != "via"@,
        other != "x-forwarded-host"@,
        other != "x-forwarded-server"@,
    ensures
        ({
            let after = applied(request_edits(upstream), headers);
            &&& has_value(after, "host"@, upstream)
            &&& !after.contains_key("via"@)
            &&& !after.contains_key("x-forwarded-host"@)
            &&& !after.contains_key("x-forwarded-server"@)
            &&& same_header(after, headers, other)
        }),
{
    reveal_strlit("host");
    reveal_strlit("via");
    reveal_strlit("x-forwarded-host");
    reveal_strlit("x-forwarded-server");
    let edits = request_edits(upstream);
    assert(edits[0].0.len() == 4 && edits[1].0.len() == 3 && edits[2].0.len() == 16
        && edits[3].0.len() == 18);
    lemma_last_edit(edits, headers, "host"@, 0);
    lemma_last_edit(edits, headers, "via"@, 1);
    lemma_last_edit(edits, headers, "x-forwarded-host"@, 2);
    lemma_last_edit(edits, headers, "x-forwarded-server"@, 3);
    lemma_untouched(edits, headers, other);
}

/// A response does not name the servers before the proxy. Its redirect is rewritten where it
/// leads to GitHub and the response is not of the Docker registry, and then it is not to be
/// stored; its challenge is rewritten where the response is of one of the two registries. All
/// other headers are as they were.
pub proof fn law_response_headers(
    hosts: ProxyHosts,
    upstream: Option<Seq<char>>,
    redirect: Option<Seq<char>>,
    challenge: Option<Seq<char>>,
    headers: Map<Seq<char>, Seq<Seq<char>>>,
    other: Seq<char>,
)
    requires
        other != "server"@,
        other != "via"@,
        other != "location"@,
        other != "cache-control"@,
        other != "www-authenticate"@,
    ensures
        ({
            let after = applied(hosts.response_edits(upstream, redirect, challenge), headers);
            &&& !after.contains_key("server"@)
            &&& !after.contains_key("via"@)
            &&& if upstream is Some && upstream != Some(DOCKER_REGISTRY@) && redirect is Some {
                &&& has_value(after, "location"@, redirect->0)
                &&& has_value(after, "cache-control"@, "no-store"@)
            } else {
                &&& same_header(after, headers, "location"@)
                &&& same_header(after, headers, "cache-control"@)
            }
            &&& if (upstream == Some(DOCKER_REGISTRY@) || upstream == Some(GHCR@))
                && challenge is Some {
                has_value(
                    after,
                    "www-authenticate"@,
                    hosts.challenge(upstream->0, challenge->0),
                )
            } else {
                same_header(after, headers, "www-authenticate"@)
            }
            &&& same_header(after, headers, other)
        }),
{
    reveal_strlit("server");
    reveal_strlit("via");
    reveal_strlit("location");
    reveal_strlit("cache-control");
    reveal_strlit("www-authenticate");
    let edits = hosts.response_edits(upstream, redirect, challenge);
    assert(edits[0].0.len() == 6 && edits[1].0.len() == 3);
    let redirected = upstream is Some && upstream != Some(DOCKER_REGISTRY@) && redirect is Some;
    let challenged = (upstream == Some(DOCKER_REGISTRY@) || upstream == Some(GHCR@))
        && challenge is Some;
    if redirected {
        assert(edits[2].0 == "location"@ && edits[3].0 == "cache-control"@);
        assert(challenged ==> edits.len() == 5 && edits[4].0 == "www-authenticate"@);
        assert(!challenged ==> edits.len() == 4);
    } else {
        assert(challenged ==> edits.len() == 3 && edits[2].0 == "www-authenticate"@);
        assert(!challenged ==> edits.len() == 2);
    }
    lemma_last_edit(edits, headers, "server"@, 0);
    lemma_last_edit(edits, headers, "via"@, 1);
    if redirected {
        lemma_last_edit(edits, headers, "location"@, 2);
        lemma_last_edit(edits, headers, "cache-control"@, 3);
    } else {
        lemma_untouched(edits, headers, "location"@);
        lemma_untouched(edits, headers, "cache-control"@);
    }
    if challenged {
        lemma_last_edit(edits, headers, "www-authenticate"@, edits.len() - 1);
    } else {
        lemma_untouched(edits, headers, "www-authenticate"@);
    }
    lemma_untouched(edits, headers, other);
}

/// A redirect to a host of GitHub's own, in any case and with either scheme, is sent to the proxy,
/// with the whole URL as its path.
pub proof fn law_github_redirect_is_rewritten(
    hosts: ProxyHosts,
    scheme: Seq<char>,
    name: Seq<char>,
    rest: Seq<char>,
)
    requires
        scheme == "https://"@ || scheme == "http://"@,
        is_official(lowercase(name)),
        rest.len() == 0 || rest[0] == '/' || rest[0] == '?' || rest[0] == '#',
        is_path_and_query(before(rest, '#')),
        fits(scheme + (name + rest)),
    ensures
        hosts.redirect(scheme + (name + rest)) == Some(
            "https://"@ + hosts.github_host + "/"@ + (scheme + (name + rest)),
        ),
{
    lemma_official_name(name);
    lemma_read_plain_url(scheme, name, rest);
}

/// A redirect to another host stays as it is.
pub proof fn law_foreign_redirect_is_kept(
    hosts: ProxyHosts,
    scheme: Seq<char>,
    name: Seq<char>,
    rest: Seq<char>,
)
    requires
        scheme == "https://"@ || scheme == "http://"@,
        is_plain_host(name),
        !is_official(lowercase(name)),
        rest.len() == 0 || rest[0] == '/' || rest[0] == '?' || rest[0] == '#',
    ensures
        hosts.redirect(scheme + (name + rest)) is None,
{
    lemma_read_plain_url(scheme, name, rest);
}

/// So does a redirect to a path.
pub proof fn law_path_redirect_is_kept(hosts: ProxyHosts, location: Seq<char>)
    requires
        "/"@.is_prefix_of(location),
    ensures
        hosts.redirect(location) is None,
{
}

/// A redirect that was rewritten is not rewritten again, where the proxy's own host is a plain
/// name and not one of GitHub's.
pub proof fn law_redirect_is_rewritten_once(
    hosts: ProxyHosts,
    location: Seq<char>,
    rewritten: Seq<char>,
)
    requires
        is_plain_host(hosts.github_host),
        !is_official(lowercase(hosts.github_host)),
    ensures
        hosts.redirect(location) == Some(rewritten) ==> hosts.redirect(rewritten) is None,
{
    reveal_strlit("/");
    let rest = "/"@ + location;
    assert("https://"@ + hosts.github_host + "/"@ + location == "https://"@ + (hosts.github_host
        + rest));
    assert(rest[0] == '/');
    law_foreign_redirect_is_kept(hosts, "https://"@, hosts.github_host, rest);
}

} // verus!
