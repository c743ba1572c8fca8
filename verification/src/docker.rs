//! Images of GHCR behind the Docker host, and the challenges of both registries.

use crate::proxy::Proxy;
use crate::proxy::ProxyHosts;
use crate::text::replace;
use crate::text::replaced;
use crate::text::same;
use crate::text::strip;
use crate::text::stripped;
use crate::upstream::Upstream;
use crate::upstream::GHCR;
use crate::uri::optional_target;
use crate::uri::read_uri;
use crate::uri::Uri;
use crate::uri::UriParts;
use vstd::prelude::*;
use vstd::string::*;

verus! {

/// The request target that GHCR is asked for, as it is written; `None` where the request is not
/// for GHCR.
pub open spec fn ghcr_text(path_and_query: Option<Seq<char>>) -> Option<Seq<char>> {
    match path_and_query {
        Some(target) => match stripped(target, "/v2/ghcr.io"@) {
            Some(rest) => Some("/v2"@ + rest),
            None => match stripped(target, "/ghcr.io"@) {
                Some(rest) => if rest.len() == 0 || "?"@.is_prefix_of(rest) {
                    Some("/"@ + rest)
                } else {
                    Some(rest)
                },
                None => None,
            },
        },
        None => None,
    }
}

/// The request target that GHCR is asked for: its text and its parts.
pub open spec fn ghcr_target(path_and_query: Option<Seq<char>>) -> Option<(Seq<char>, UriParts)> {
    match ghcr_text(path_and_query) {
        Some(text) => match read_uri(text) {
            Some(parts) => Some((text, parts)),
            None => None,
        },
        None => None,
    }
}

impl ProxyHosts {
    /// The challenge that a client gets in place of the challenge of an upstream, so that it asks
    /// the proxy for its token.
    pub open spec fn challenge(self, upstream: Seq<char>, challenge: Seq<char>) -> Seq<char> {
        if upstream == GHCR@ {
            replaced(
                challenge,
                "https://ghcr.io/token"@,
                "https://"@ + self.docker_host->0 + "/ghcr.io/token"@,
            )
        } else {
            match self.docker_auth_host {
                Some(host) => replaced(
                    challenge,
                    "https://auth.docker.io/"@,
                    "https://"@ + host + "/"@,
                ),
                None => challenge,
            }
        }
    }
}

impl Proxy {
    /// The request target that GHCR is asked for, as it is written.
    pub fn ghcr_target_text(uri: &Uri) -> (text: Option<String>)
        ensures
            text.deep_view() == ghcr_text(uri@.path_and_query),
    {
        let target = match &uri.path_and_query {
            Some(target) => target.as_str(),
            None => return None,
        };
        if let Some(rest) = strip(target, "/v2/ghcr.io") {
            let mut text = "/v2".to_owned();
            text.append(rest);
            return Some(text);
        }
        match strip(target, "/ghcr.io") {
            Some(rest) => if rest.is_empty() || strip(rest, "?").is_some() {
                let mut text = "/".to_owned();
                text.append(rest);
                Some(text)
            } else {
                Some(rest.to_owned())
            },
            None => None,
        }
    }

    /// The request target that GHCR is asked for, where the request is for GHCR.
    pub fn ghcr_target(uri: &Uri) -> (target: Option<Uri>)
        ensures
            optional_target(target) == ghcr_target(uri@.path_and_query),
    {
        match Self::ghcr_target_text(uri) {
            Some(text) => Uri::parse(text.as_str()),
            None => None,
        }
    }

    /// The challenge that a client gets in place of the challenge of an upstream.
    pub fn challenge(&self, upstream: Upstream, challenge: &str) -> (rewritten: String)
        requires
            upstream@ == GHCR@ ==> self.docker_host is Some,
        ensures
            rewritten@ == self@.challenge(upstream@, challenge@),
    {
        if same(upstream.host, GHCR) {
            let mut realm = "https://".to_owned();
            realm.append(self.docker_host.as_ref().unwrap().as_str());
            realm.append("/ghcr.io/token");
            proof {
                reveal_strlit("https://ghcr.io/token");
            }
            replace(challenge, "https://ghcr.io/token", realm.as_str())
        } else {
            match &self.docker_auth_host {
                Some(host) => {
                    let mut realm = "https://".to_owned();
                    realm.append(host.as_str());
                    realm.append("/");
                    proof {
                        reveal_strlit("https://auth.docker.io/");
                    }
                    replace(challenge, "https://auth.docker.io/", realm.as_str())
                },
                None => challenge.to_owned(),
            }
        }
    }
}

} // verus!
