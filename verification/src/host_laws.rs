//! What holds of the names of hosts and of the upstreams that they stand for.

use crate::proxy::ProxyHosts;
use crate::proxy::configured;
use crate::text::before;
use crate::text::is_white_space;
use crate::text::lemma_position;
use crate::text::lemma_position_is;
use crate::text::lower;
use crate::text::lowercase;
use crate::text::position;
use crate::text::trim_end;
use crate::text::trim_start;
use crate::text::trimmed;
use crate::upstream::DOCKER_AUTH;
use crate::upstream::DOCKER_REGISTRY;
use crate::upstream::GHCR;
use crate::upstream::GITHUB;
use crate::upstream::GITHUB_API;
use crate::upstream::GITHUB_CODELOAD;
use crate::upstream::GITHUB_OBJECTS;
use crate::upstream::GITHUB_RAW;
use crate::upstream::GITHUB_RELEASES;
use vstd::prelude::*;

verus! {

/// The lengths of the upstream hosts tell most of them apart.
pub proof fn lemma_host_lengths()
    ensures
        GITHUB@.len() == 10,
        GITHUB_API@.len() == 14,
        GITHUB_RAW@.len() == 25,
        GITHUB_CODELOAD@.len() == 19,
        GITHUB_OBJECTS@.len() == 29,
        GITHUB_RELEASES@.len() == 36,
        DOCKER_REGISTRY@.len() == 20,
        DOCKER_AUTH@.len() == 14,
        GHCR@.len() == 7,
{
    reveal_strlit("github.com");
    reveal_strlit("api.github.com");
    reveal_strlit("raw.githubusercontent.com");
    reveal_strlit("codeload.github.com");
    reveal_strlit("objects.githubusercontent.com");
    reveal_strlit("release-assets.githubusercontent.com");
    reveal_strlit("registry-1.docker.io");
    reveal_strlit("auth.docker.io");
    reveal_strlit("ghcr.io");
}

/// Lower case keeps colons and white space, and is reached in one step.
proof fn lemma_lower(c: char)
    ensures
        lower(lower(c)) == lower(c),
        is_white_space(lower(c)) == is_white_space(c),
        lower(c) == ':' <==> c == ':',
{
}

proof fn lemma_trim_start_lowercase(s: Seq<char>)
    ensures
        trim_start(lowercase(s)) == lowercase(trim_start(s)),
    decreases s.len(),
{
    if s.len() > 0 {
        lemma_lower(s[0]);
        assert(lowercase(s).skip(1) == lowercase(s.skip(1)));
        lemma_trim_start_lowercase(s.skip(1));
    }
}

proof fn lemma_trim_end_lowercase(s: Seq<char>)
    ensures
        trim_end(lowercase(s)) == lowercase(trim_end(s)),
    decreases s.len(),
{
    if s.len() > 0 {
        lemma_lower(s.last());
        assert(lowercase(s).drop_last() == lowercase(s.drop_last()));
        lemma_trim_end_lowercase(s.drop_last());
    }
}

proof fn lemma_before_lowercase(s: Seq<char>)
    ensures
        before(lowercase(s), ':') == lowercase(before(s, ':')),
{
    lemma_position(s, ':');
    let n = position(s, ':');
    assert forall|i: int| 0 <= i < n implies lowercase(s)[i] != ':' by {
        lemma_lower(s[i]);
    }
    if n < s.len() {
        lemma_lower(s[n]);
    }
    lemma_position_is(lowercase(s), ':', n);
    assert(lowercase(s).take(n) == lowercase(s.take(n)));
}

proof fn lemma_lowercase_twice(s: Seq<char>)
    ensures
        lowercase(lowercase(s)) == lowercase(s),
{
    assert forall|i: int| 0 <= i < s.len() implies lowercase(lowercase(s))[i] == lowercase(s)[i] by {
        lemma_lower(s[i]);
    }
    assert(lowercase(lowercase(s)) =~= lowercase(s));
}

/// The white space at both ends of a text, and what is left without it.
proof fn lemma_trim_start(s: Seq<char>) -> (n: int)
    ensures
        0 <= n <= s.len(),
        trim_start(s) == s.skip(n),
        forall|i: int| 0 <= i < n ==> is_white_space(s[i]),
        n < s.len() ==> !is_white_space(s[n]),
    decreases s.len(),
{
    if s.len() > 0 && is_white_space(s[0]) {
        let m = lemma_trim_start(s.skip(1));
        assert(s.skip(1).skip(m) == s.skip(m + 1));
        assert forall|i: int| 0 <= i < m + 1 implies is_white_space(s[i]) by {
            if i > 0 {
                assert(s[i] == s.skip(1)[i - 1]);
            }
        }
        m + 1
    } else {
        assert(s.skip(0) == s);
        0
    }
}

proof fn lemma_trim_end(s: Seq<char>) -> (n: int)
    ensures
        0 <= n <= s.len(),
        trim_end(s) == s.take(n),
        forall|i: int| n <= i < s.len() ==> is_white_space(s[i]),
        n > 0 ==> !is_white_space(s[n - 1]),
    decreases s.len(),
{
    if s.len() > 0 && is_white_space(s.last()) {
        let n = lemma_trim_end(s.drop_last());
        assert(s.drop_last().take(n) == s.take(n));
        assert forall|i: int| n <= i < s.len() implies is_white_space(s[i]) by {
            if i < s.len() - 1 {
                assert(s[i] == s.drop_last()[i]);
            }
        }
        n
    } else {
        assert(s.take(s.len() as int) == s);
        s.len() as int
    }
}

/// A text between white space is what trimming leaves, where it does not itself start or end
/// with white space.
pub proof fn lemma_trimmed_is(s: Seq<char>, from: int, to: int)
    requires
        0 <= from <= to <= s.len(),
        forall|i: int| 0 <= i < from ==> is_white_space(s[i]),
        forall|i: int| to <= i < s.len() ==> is_white_space(s[i]),
        from < to ==> !is_white_space(s[from]) && !is_white_space(s[to - 1]),
    ensures
        trimmed(s) == s.subrange(from, to),
{
    let a = lemma_trim_start(s);
    let rest = s.skip(a);
    let b = lemma_trim_end(rest);
    if from < to {
        if a < from {
            assert(is_white_space(s[a]));
        } else if from < a {
            assert(is_white_space(s[from]));
        }
        assert(a == from);
        if a + b < to {
            assert(is_white_space(rest[to - 1 - a]));
        } else if to < a + b {
            assert(rest[b - 1] == s[a + b - 1]);
        }
        assert(a + b == to);
    } else {
        if a < s.len() {
            assert(is_white_space(s[a]));
        }
        assert(rest.len() == 0);
    }
    assert(rest.take(b) == s.subrange(from, to));
}

/// The bounds of what trimming leaves.
pub proof fn lemma_trimmed(s: Seq<char>) -> (bounds: (int, int))
    ensures
        0 <= bounds.0 <= bounds.1 <= s.len(),
        trimmed(s) == s.subrange(bounds.0, bounds.1),
        forall|i: int| 0 <= i < bounds.0 ==> is_white_space(s[i]),
        forall|i: int| bounds.1 <= i < s.len() ==> is_white_space(s[i]),
        bounds.0 < bounds.1 ==> !is_white_space(s[bounds.0]) && !is_white_space(s[bounds.1 - 1]),
{
    let a = lemma_trim_start(s);
    let rest = s.skip(a);
    let b = lemma_trim_end(rest);
    assert(rest.take(b) == s.subrange(a, a + b));
    assert forall|i: int| a + b <= i < s.len() implies is_white_space(s[i]) by {
        assert(s[i] == rest[i - a]);
    }
    if b > 0 {
        assert(rest[b - 1] == s[a + b - 1]);
    }
    (a, a + b)
}

/// A port behind a host makes no difference.
pub proof fn law_port_is_ignored(host: Seq<char>, port: Seq<char>)
    ensures
        configured(host + ":"@ + port) == configured(host),
{
    reveal_strlit(":");
    lemma_position(host, ':');
    let n = position(host, ':');
    let whole = host + ":"@ + port;
    assert forall|i: int| 0 <= i < n implies whole[i] != ':' by {
        assert(whole[i] == host[i]);
    }
    if n < host.len() {
        assert(whole[n] == host[n]);
    }
    lemma_position_is(whole, ':', n);
    assert(whole.take(n) == host.take(n));
}

/// The case of a host makes no difference.
pub proof fn law_case_is_ignored(host: Seq<char>)
    ensures
        configured(lowercase(host)) == configured(host),
{
    lemma_before_lowercase(host);
    let name = before(host, ':');
    lemma_trim_start_lowercase(name);
    lemma_trim_end_lowercase(trim_start(name));
    lemma_lowercase_twice(trimmed(name));
}

/// White space around a host makes no difference.
pub proof fn law_white_space_is_ignored(host: Seq<char>)
    ensures
        configured(trimmed(host)) == configured(host),
{
    let (a, b) = lemma_trimmed(host);
    let inner = trimmed(host);
    lemma_position(host, ':');
    let n = position(host, ':');
    if n < host.len() {
        assert(!is_white_space(host[n]));
        assert(a <= n < b);
        assert forall|i: int| 0 <= i < n - a implies inner[i] != ':' by {
            assert(inner[i] == host[a + i]);
        }
        assert(inner[n - a] == host[n]);
        lemma_position_is(inner, ':', n - a);
        let short = inner.take(n - a);
        let (c, d) = lemma_trimmed(short);
        let long = host.take(n);
        assert forall|i: int| 0 <= i < short.len() implies short[i] == long[a + i] by {}
        assert forall|i: int| 0 <= i < a + c implies is_white_space(long[i]) by {
            if i >= a {
                assert(long[i] == short[i - a]);
            }
        }
        assert forall|i: int| a + d <= i < long.len() implies is_white_space(long[i]) by {
            assert(long[i] == short[i - a]);
        }
        lemma_trimmed_is(long, a + c, a + d);
        assert(long.subrange(a + c, a + d) == short.subrange(c, d));
    } else {
        assert forall|i: int| 0 <= i < inner.len() implies inner[i] != ':' by {
            assert(inner[i] == host[a + i]);
        }
        lemma_position_is(inner, ':', inner.len() as int);
        assert(inner.take(inner.len() as int) == inner);
        assert(host.take(n) == host);
        lemma_trimmed_is(inner, 0, inner.len() as int);
        assert(inner.subrange(0, inner.len() as int) == inner);
    }
}

/// A name that was taken from a host is taken from itself.
pub proof fn law_configured_once(host: Seq<char>)
    ensures
        configured(configured(host)) == configured(host),
{
    let name = before(host, ':');
    lemma_position(host, ':');
    let (a, b) = lemma_trimmed(name);
    let inner = trimmed(name);
    let result = lowercase(inner);
    assert forall|i: int| 0 <= i < result.len() implies result[i] != ':' by {
        assert(inner[i] == host[a + i]);
        lemma_lower(inner[i]);
    }
    lemma_position_is(result, ':', result.len() as int);
    assert(result.take(result.len() as int) == result);
    if result.len() > 0 {
        lemma_lower(inner[0]);
        lemma_lower(inner.last());
    }
    lemma_trimmed_is(result, 0, result.len() as int);
    assert(result.subrange(0, result.len() as int) == result);
    lemma_lowercase_twice(inner);
}

/// The hosts of a proxy that was made from its configuration are in the form that requests are
/// compared in.
pub proof fn law_new_is_well_formed(
    github: Seq<char>,
    docker: Option<Seq<char>>,
    docker_auth: Option<Seq<char>>,
)
    ensures
        ProxyHosts::new(github, docker, docker_auth).well_formed(),
{
    law_configured_once(github);
    if let Some(host) = docker {
        law_configured_once(trimmed(host));
    }
    if let Some(host) = docker_auth {
        law_configured_once(trimmed(host));
    }
}

/// A proxy answers for the hosts that it was configured with, each as it was written: the first
/// stands for GitHub, the Docker host, if it is not blank and has another name, for the Docker
/// registry, and the Docker token host, if it is not blank and has another name than both, for
/// the Docker token service.
pub proof fn law_configured_hosts_are_served(
    github: Seq<char>,
    docker: Option<Seq<char>>,
    docker_auth: Option<Seq<char>>,
)
    ensures
        ({
            let hosts = ProxyHosts::new(github, docker, docker_auth);
            &&& hosts.route(github) == Some(GITHUB@)
            &&& docker matches Some(host) ==> (trimmed(host).len() > 0 && configured(host)
                != configured(github) ==> hosts.route(host) == Some(DOCKER_REGISTRY@))
            &&& docker_auth matches Some(host) ==> (trimmed(host).len() > 0 && configured(host)
                != configured(github) && hosts.docker_host != Some(configured(host))
                ==> hosts.route(host) == Some(DOCKER_AUTH@))
        }),
{
    if let Some(host) = docker {
        law_white_space_is_ignored(host);
    }
    if let Some(host) = docker_auth {
        law_white_space_is_ignored(host);
    }
}

/// Only configured hosts have an upstream, and a Docker host that is not configured leaves its
/// upstream out of reach.
pub proof fn law_only_configured_hosts(hosts: ProxyHosts, host: Seq<char>)
    ensures
        hosts.route(host) is Some <==> {
            ||| configured(host) == hosts.github_host
            ||| hosts.docker_host == Some(configured(host))
            ||| hosts.docker_auth_host == Some(configured(host))
        },
        hosts.route(host) == Some(GITHUB@) <==> configured(host) == hosts.github_host,
        hosts.docker_host is None ==> hosts.route(host) != Some(DOCKER_REGISTRY@),
        hosts.docker_auth_host is None ==> hosts.route(host) != Some(DOCKER_AUTH@),
{
    lemma_host_lengths();
}

} // verus!
