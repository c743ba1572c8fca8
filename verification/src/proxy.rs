//! The hosts that the proxy answers for, and the upstream that each stands for.

use crate::text::before;
use crate::text::lowercase;
use crate::text::same;
use crate::text::take_before;
use crate::text::to_lowercase;
use crate::text::trim;
use crate::text::trimmed;
use crate::upstream::upstream_host;
use crate::upstream::Upstream;
use crate::upstream::DOCKER_AUTH;
use crate::upstream::DOCKER_REGISTRY;
use crate::upstream::GITHUB;
use vstd::prelude::*;
use vstd::string::*;

verus! {

/// What is known of a request once its upstream is chosen.
#[derive(Clone, Copy, Debug)]
pub struct RequestContext {
    pub upstream: Option<Upstream>,
}

impl Default for RequestContext {
    fn default() -> (ctx: Self)
        ensures
            ctx.upstream is None,
    {
        RequestContext { upstream: None }
    }
}

/// The proxy: the names that it answers for.
#[derive(Debug)]
pub struct Proxy {
    pub github_host: String,
    pub docker_host: Option<String>,
    pub docker_auth_host: Option<String>,
}

/// The names that a proxy answers for.
pub struct ProxyHosts {
    pub github_host: Seq<char>,
    pub docker_host: Option<Seq<char>>,
    pub docker_auth_host: Option<Seq<char>>,
}

impl View for Proxy {
    type V = ProxyHosts;

    open spec fn view(&self) -> ProxyHosts {
        ProxyHosts {
            github_host: self.github_host@,
            docker_host: self.docker_host.deep_view(),
            docker_auth_host: self.docker_auth_host.deep_view(),
        }
    }
}

/// The name in a host: without its port and the white space around it, in lower case.
pub open spec fn configured(host: Seq<char>) -> Seq<char> {
    lowercase(trimmed(before(host, ':')))
}

/// The name in an optional host; a blank host counts as none.
pub open spec fn configured_option(host: Option<Seq<char>>) -> Option<Seq<char>> {
    match host {
        Some(host) => if trimmed(host).len() == 0 {
            None
        } else {
            Some(configured(trimmed(host)))
        },
        None => None,
    }
}

/// The text in an optional text.
pub open spec fn optional(text: Option<&str>) -> Option<Seq<char>> {
    match text {
        Some(text) => Some(text@),
        None => None,
    }
}

impl ProxyHosts {
    /// The hosts that a proxy gets from its configuration.
    pub open spec fn new(
        github_host: Seq<char>,
        docker_host: Option<Seq<char>>,
        docker_auth_host: Option<Seq<char>>,
    ) -> ProxyHosts {
        ProxyHosts {
            github_host: configured(github_host),
            docker_host: configured_option(docker_host),
            docker_auth_host: configured_option(docker_auth_host),
        }
    }

    /// Whether each name is in the form that requests are compared in.
    pub open spec fn well_formed(self) -> bool {
        &&& configured(self.github_host) == self.github_host
        &&& self.docker_host matches Some(host) ==> configured(host) == host
        &&& self.docker_auth_host matches Some(host) ==> configured(host) == host
    }

    /// The upstream that a host stands for.
    pub open spec fn route(self, host: Seq<char>) -> Option<Seq<char>> {
        let name = configured(host);
        if name == self.github_host {
            Some(GITHUB@)
        } else if self.docker_host == Some(name) {
            Some(DOCKER_REGISTRY@)
        } else if self.docker_auth_host == Some(name) {
            Some(DOCKER_AUTH@)
        } else {
            None
        }
    }
}

/// Whether an optional name is `name`.
fn is_name(host: &Option<String>, name: &str) -> (r: bool)
    ensures
        r == (host.deep_view() == Some(name@)),
{
    match host {
        Some(host) => same(host.as_str(), name),
        None => false,
    }
}

impl Proxy {
    /// A proxy that answers for the given hosts. A blank Docker host counts as none.
    pub fn new(
        github_host: &str,
        docker_host: Option<&str>,
        docker_auth_host: Option<&str>,
    ) -> (proxy: Self)
        ensures
            proxy@ == ProxyHosts::new(
                github_host@,
                optional(docker_host),
                optional(docker_auth_host),
            ),
    {
        Proxy {
            github_host: Self::configured_host(github_host),
            docker_host: Self::configured_optional_host(docker_host),
            docker_auth_host: Self::configured_optional_host(docker_auth_host),
        }
    }

    /// The name in a host, in the form that hosts are compared in.
    pub fn configured_host(host: &str) -> (name: String)
        ensures
            name@ == configured(host@),
    {
        to_lowercase(trim(take_before(host, ':')))
    }

    /// The name in an optional host, where it is not blank.
    pub fn configured_optional_host(host: Option<&str>) -> (name: Option<String>)
        ensures
            name.deep_view() == configured_option(optional(host)),
    {
        match host {
            Some(host) => {
                let host = trim(host);
                if host.is_empty() {
                    None
                } else {
                    Some(Self::configured_host(host))
                }
            },
            None => None,
        }
    }

    /// The upstream that a host stands for.
    pub fn route(&self, host: &str) -> (upstream: Option<Upstream>)
        ensures
            upstream_host(upstream) == self@.route(host@),
    {
        let host = Self::configured_host(host);
        if host == self.github_host {
            Some(Upstream::new(GITHUB))
        } else if is_name(&self.docker_host, host.as_str()) {
            Some(Upstream::new(DOCKER_REGISTRY))
        } else if is_name(&self.docker_auth_host, host.as_str()) {
            Some(Upstream::new(DOCKER_AUTH))
        } else {
            None
        }
    }

    /// What is known of a request before its upstream is chosen.
    pub fn new_ctx(&self) -> (ctx: RequestContext)
        ensures
            ctx.upstream is None,
    {
        RequestContext::default()
    }
}

} // verus!
