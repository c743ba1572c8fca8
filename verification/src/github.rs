//! GitHub URLs in request paths and in redirects.

use crate::proxy::Proxy;
use crate::proxy::ProxyHosts;
use crate::text::before;
use crate::text::lemma_position;
use crate::text::lemma_position_is;
use crate::text::lowercase;
use crate::text::same;
use crate::text::strip;
use crate::text::stripped;
use crate::text::take_before;
use crate::text::to_lowercase;
use crate::upstream::upstream_host;
use crate::upstream::Upstream;
use crate::upstream::GITHUB;
use crate::upstream::GITHUB_API;
use crate::upstream::GITHUB_CODELOAD;
use crate::upstream::GITHUB_OBJECTS;
use crate::upstream::GITHUB_RAW;
use crate::upstream::GITHUB_RELEASES;
use crate::uri::after_scheme;
use crate::uri::fits;
use crate::uri::path_only;
use crate::uri::read_uri;
use crate::uri::target_of;
use crate::uri::Uri;
use crate::uri::UriParts;
use vstd::prelude::*;
use vstd::string::*;
use vstd::utf8::encode_utf8;

verus! {

/// Whether a host is one of GitHub's own.
pub open spec fn is_official(host: Seq<char>) -> bool {
    ||| host == GITHUB@
    ||| host == GITHUB_API@
    ||| host == GITHUB_RAW@
    ||| host == GITHUB_CODELOAD@
    ||| host == GITHUB_OBJECTS@
    ||| host == GITHUB_RELEASES@
}

/// The upstream of a host that is GitHub's own, in whatever case it is written.
pub open spec fn official(host: Seq<char>) -> Option<Seq<char>> {
    if is_official(lowercase(host)) {
        Some(lowercase(host))
    } else {
        None
    }
}

/// A text without `https://` or `http://` at its start.
pub open spec fn without_scheme(s: Seq<char>) -> Seq<char> {
    match after_scheme(s) {
        Some(rest) => rest,
        None => s,
    }
}

/// The URL that a request path holds behind its slash, with the scheme `https`.
pub open spec fn held_url(path_and_query: Option<Seq<char>>) -> Option<Seq<char>> {
    match path_and_query {
        Some(target) => match stripped(target, "/"@) {
            Some(url) => Some("https://"@ + without_scheme(url)),
            None => None,
        },
        None => None,
    }
}

/// The upstream that a URL leads to, and the path and query to ask it for; `None` where the
/// host is not one of GitHub's own.
pub open spec fn destination(url: UriParts) -> Option<(Seq<char>, Seq<char>)> {
    match url.host {
        Some(host) => match official(host) {
            Some(upstream) => Some(
                (
                    upstream,
                    match url.path_and_query {
                        Some(target) => target,
                        None => "/"@,
                    },
                ),
            ),
            None => None,
        },
        None => None,
    }
}

/// A request target that is a path with a query: its text and its parts.
pub open spec fn path_target(target: Seq<char>) -> (Seq<char>, UriParts) {
    (
        target,
        UriParts { host: None, path: before(target, '?'), path_and_query: Some(target) },
    )
}

/// The upstream and the request target that a URL stands for. A URL of another host has none,
/// nor has one with a query but no path.
pub open spec fn url_target(url: UriParts) -> Option<(Seq<char>, (Seq<char>, UriParts))> {
    match destination(url) {
        Some((upstream, target)) => if "/"@.is_prefix_of(target) {
            Some((upstream, path_target(target)))
        } else {
            None
        },
        None => None,
    }
}

/// The upstream and the request target for a request whose path holds a GitHub URL.
pub open spec fn github_target(path_and_query: Option<Seq<char>>) -> Option<
    (Seq<char>, (Seq<char>, UriParts)),
> {
    match held_url(path_and_query) {
        Some(held) => match read_uri(held) {
            Some(url) => url_target(url),
            None => None,
        },
        None => None,
    }
}

/// The upstream and the request target in the result of `github_url_target`.
pub open spec fn target_view(target: Option<(Upstream, Uri)>) -> Option<
    (Seq<char>, (Seq<char>, UriParts)),
> {
    match target {
        Some((upstream, uri)) => Some((upstream@, target_of(uri))),
        None => None,
    }
}

/// Whether a request path holds a URL: one with a scheme, or one that starts with a host of
/// GitHub's own.
pub open spec fn is_url_format(path: Seq<char>) -> bool {
    match stripped(path, "/"@) {
        Some(url) => after_scheme(url) is Some || official(before(url, '/')) is Some,
        None => false,
    }
}

impl ProxyHosts {
    /// Where a redirect to `location` is sent instead, `url` being the parts of the location.
    pub open spec fn redirect_of(self, location: Seq<char>, url: UriParts) -> Option<Seq<char>> {
        match destination(url) {
            Some(_) => Some("https://"@ + self.github_host + "/"@ + location),
            None => None,
        }
    }

    /// Where a redirect to `location` is sent instead; `None` where it stays as it is.
    pub open spec fn redirect(self, location: Seq<char>) -> Option<Seq<char>> {
        match read_uri(location) {
            Some(url) => self.redirect_of(location, url),
            None => None,
        }
    }
}

/// What the path of a target is where the target would be read as itself.
proof fn lemma_path_target(target: Seq<char>, path: Seq<char>)
    requires
        "/"@.is_prefix_of(target),
        path_only(target) == Some(
            UriParts { host: None, path, path_and_query: Some(target) },
        ),
    ensures
        path_only(target) == Some(path_target(target).1),
{
    reveal_strlit("/");
    assert(target[0] == "/"@[0]);
    lemma_position(target, '#');
    lemma_position(target, '?');
    let fragmentless = before(target, '#');
    assert(fragmentless.len() > 0);
    assert(fragmentless == target);
    assert(before(target, '?').len() > 0);
}

/// The path `/` is read as itself.
proof fn lemma_slash()
    ensures
        "/"@.is_prefix_of("/"@),
        path_only("/"@) == Some(path_target("/"@).1),
{
    reveal_strlit("/");
    assert("/"@ == seq!['/']);
    assert(fits("/"@)) by {
        reveal_with_fuel(encode_utf8, 2);
    }
    lemma_position_is("/"@, '#', 1);
    lemma_position_is("/"@, '?', 1);
    assert(before("/"@, '#') == "/"@);
    assert(before("/"@, '?') == "/"@);
}

impl Proxy {
    /// The upstream of a host that is GitHub's own.
    pub fn github_upstream(host: &str) -> (upstream: Option<Upstream>)
        ensures
            upstream_host(upstream) == official(host@),
    {
        let host = to_lowercase(host);
        let host = host.as_str();
        if same(host, GITHUB) {
            Some(Upstream::new(GITHUB))
        } else if same(host, GITHUB_API) {
            Some(Upstream::new(GITHUB_API))
        } else if same(host, GITHUB_RAW) {
            Some(Upstream::new(GITHUB_RAW))
        } else if same(host, GITHUB_CODELOAD) {
            Some(Upstream::new(GITHUB_CODELOAD))
        } else if same(host, GITHUB_OBJECTS) {
            Some(Upstream::new(GITHUB_OBJECTS))
        } else if same(host, GITHUB_RELEASES) {
            Some(Upstream::new(GITHUB_RELEASES))
        } else {
            None
        }
    }

    /// The URL that a request path holds behind its slash, with the scheme `https`.
    pub fn github_held_url(uri: &Uri) -> (url: Option<String>)
        ensures
            url.deep_view() == held_url(uri@.path_and_query),
    {
        match &uri.path_and_query {
            Some(target) => match strip(target.as_str(), "/") {
                Some(held) => {
                    let rest = match strip(held, "https://") {
                        Some(rest) => rest,
                        None => match strip(held, "http://") {
                            Some(rest) => rest,
                            None => held,
                        },
                    };
                    let mut url = "https://".to_owned();
                    url.append(rest);
                    Some(url)
                },
                None => None,
            },
            None => None,
        }
    }

    /// The upstream that a URL leads to, and the path and query to ask it for.
    pub fn github_destination(url: &Uri) -> (result: Option<(Upstream, String)>)
        ensures
            match result {
                Some((upstream, target)) => destination(url@) == Some((upstream@, target@)),
                None => destination(url@) is None,
            },
    {
        match &url.host {
            Some(host) => match Self::github_upstream(host.as_str()) {
                Some(upstream) => {
                    let target = match &url.path_and_query {
                        Some(target) => target.clone(),
                        None => "/".to_owned(),
                    };
                    Some((upstream, target))
                },
                None => None,
            },
            None => None,
        }
    }

    /// The upstream and the request target for a request whose path holds a GitHub URL.
    pub fn github_url_target(uri: &Uri) -> (result: Option<(Upstream, Uri)>)
        ensures
            target_view(result) == github_target(uri@.path_and_query),
    {
        let url = match Self::github_held_url(uri) {
            Some(url) => url,
            None => return None,
        };
        let url = match Uri::parse(url.as_str()) {
            Some(url) => url,
            None => return None,
        };
        let (upstream, target) = match Self::github_destination(&url) {
            Some(result) => result,
            None => return None,
        };
        let path = Uri::parse(target.as_str());
        proof {
            reveal_strlit("/");
            reveal_strlit("?");
            if url.path_and_query is None {
                lemma_slash();
            } else if "/"@.is_prefix_of(target@) {
                lemma_path_target(target@, url@.path);
            }
        }
        match path {
            Some(path) => Some((upstream, path)),
            None => None,
        }
    }

    /// Whether a request path holds a URL.
    pub fn is_github_url_format(uri: &Uri) -> (r: bool)
        ensures
            r == is_url_format(uri@.path),
    {
        let target = match strip(uri.path.as_str(), "/") {
            Some(target) => target,
            None => return false,
        };
        if strip(target, "https://").is_some() || strip(target, "http://").is_some() {
            return true;
        }
        Self::github_upstream(take_before(target, '/')).is_some()
    }

    /// Where a redirect is sent instead, `url` being what its location was read as.
    pub fn github_redirect_of(&self, location: &str, url: &Uri) -> (rewritten: Option<String>)
        ensures
            rewritten.deep_view() == self@.redirect_of(location@, url@),
    {
        if Self::github_destination(url).is_none() {
            return None;
        }
        let mut rewritten = "https://".to_owned();
        rewritten.append(self.github_host.as_str());
        rewritten.append("/");
        rewritten.append(location);
        Some(rewritten)
    }

    /// Where a redirect is sent instead. Where the location is an `http` or `https` URL, a request
    /// for the path that the rewritten location has leads to what the location stood for.
    pub fn github_proxy_redirect(&self, location: &str) -> (rewritten: Option<String>)
        ensures
            rewritten.deep_view() == self@.redirect(location@),
            rewritten is Some ==> (after_scheme(location@) matches Some(rest) ==> (fits(
                "https://"@ + rest,
            ) ==> github_target(Some("/"@ + location@)) == url_target(read_uri(location@)->0))),
    {
        match Uri::parse(location) {
            Some(url) => {
                proof {
                    lemma_held_location(location@);
                }
                self.github_redirect_of(location, &url)
            },
            None => None,
        }
    }
}

/// The URL that a path holds which is made of a slash and a URL.
pub proof fn lemma_held_location(location: Seq<char>)
    ensures
        stripped("/"@ + location, "/"@) == Some(location),
        after_scheme(location) matches Some(rest) ==> held_url(Some("/"@ + location)) == Some(
            "https://"@ + rest,
        ),
        stripped(location, "https://"@) matches Some(rest) ==> location == "https://"@ + rest,
{
    reveal_strlit("/");
    assert(("/"@ + location).subrange(0, 1) == "/"@);
    assert(("/"@ + location).skip(1) == location);
    if let Some(rest) = stripped(location, "https://"@) {
        assert(location == "https://"@ + rest);
    }
}

} // verus!
