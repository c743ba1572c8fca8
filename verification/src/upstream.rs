//! The hosts that requests are forwarded to, and how they are connected to.

use crate::text::same;
use vstd::prelude::*;
use vstd::string::*;

verus! {

/// GitHub itself.
pub const GITHUB: &'static str = "github.com";

/// The API of GitHub.
pub const GITHUB_API: &'static str = "api.github.com";

/// Files of repositories.
pub const GITHUB_RAW: &'static str = "raw.githubusercontent.com";

/// Archives of repositories.
pub const GITHUB_CODELOAD: &'static str = "codeload.github.com";

/// Objects that GitHub stores.
pub const GITHUB_OBJECTS: &'static str = "objects.githubusercontent.com";

/// Files of releases.
pub const GITHUB_RELEASES: &'static str = "release-assets.githubusercontent.com";

/// The registry of Docker Hub.
pub const DOCKER_REGISTRY: &'static str = "registry-1.docker.io";

/// The token service of Docker Hub.
pub const DOCKER_AUTH: &'static str = "auth.docker.io";

/// The GitHub container registry.
pub const GHCR: &'static str = "ghcr.io";

/// Seconds that a connection to an upstream may take.
pub const CONNECT_TIMEOUT: u64 = 3;

/// Seconds that one read from or write to an upstream may take.
pub const IO_TIMEOUT: u64 = 300;

/// Seconds that an unused connection to an upstream is kept.
pub const IDLE_TIMEOUT: u64 = 90;

/// A host that requests are forwarded to.
#[derive(Clone, Copy, Debug, Eq)]
pub struct Upstream {
    pub host: &'static str,
}

impl View for Upstream {
    type V = Seq<char>;

    open spec fn view(&self) -> Seq<char> {
        self.host@
    }
}

impl PartialEq for Upstream {
    fn eq(&self, other: &Self) -> (equal: bool) {
        same(self.host, other.host)
    }
}

impl vstd::std_specs::cmp::PartialEqSpecImpl for Upstream {
    open spec fn obeys_eq_spec() -> bool {
        true
    }

    open spec fn eq_spec(&self, other: &Self) -> bool {
        self.host@ == other.host@
    }
}

/// The host of an upstream, where there is one.
pub open spec fn upstream_host(upstream: Option<Upstream>) -> Option<Seq<char>> {
    match upstream {
        Some(upstream) => Some(upstream@),
        None => None,
    }
}

impl Upstream {
    pub fn new(host: &'static str) -> (upstream: Self)
        ensures
            upstream@ == host@,
    {
        Self { host }
    }

    /// Where the upstream is connected to.
    pub fn address(self) -> (address: String)
        ensures
            address@ == self@ + ":443"@,
    {
        let mut address = self.host.to_owned();
        address.append(":443");
        address
    }
}

/// The protocol that is offered to an upstream.
#[derive(Clone, Copy, Debug, PartialEq, Eq, Structural)]
pub enum Alpn {
    Http1,
}

/// How an upstream is connected to. Timeouts are in seconds.
#[derive(Debug)]
pub struct Peer {
    pub address: String,
    pub tls: bool,
    pub sni: String,
    pub connection_timeout: u64,
    pub total_connection_timeout: u64,
    pub read_timeout: u64,
    pub write_timeout: u64,
    pub idle_timeout: u64,
    pub alpn: Alpn,
}

} // verus!
