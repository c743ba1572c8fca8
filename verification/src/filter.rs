//! What is done with a request, with the connection to its upstream and with the response.

use crate::docker::ghcr_target;
use crate::github::github_target;
use crate::github::is_url_format;
use crate::github::target_view;
use crate::header::edits;
use crate::header::header_text;
use crate::header::read_header;
use crate::header::remove_header;
use crate::header::set_header;
use crate::header::Edit;
use crate::header::HeaderEdit;
use crate::proxy::optional;
use crate::proxy::Proxy;
use crate::proxy::ProxyHosts;
use crate::proxy::RequestContext;
use crate::text::decimal;
use crate::text::same;
use crate::text::to_decimal;
use crate::upstream::upstream_host;
use crate::upstream::Alpn;
use crate::upstream::Peer;
use crate::upstream::Upstream;
use crate::upstream::CONNECT_TIMEOUT;
use crate::upstream::DOCKER_REGISTRY;
use crate::upstream::GHCR;
use crate::upstream::GITHUB;
use crate::upstream::IDLE_TIMEOUT;
use crate::upstream::IO_TIMEOUT;
use crate::uri::optional_target;
use crate::uri::Uri;
use crate::uri::UriParts;
use vstd::prelude::*;
use vstd::string::*;
use vstd::utf8::encode_utf8;

verus! {

/// A response that the proxy gives by itself.
#[derive(Debug)]
pub struct StatusResponse {
    pub status: u16,
    pub headers: Vec<HeaderEdit>,
    pub body: &'static str,
}

/// What a response of the proxy itself holds.
pub struct StatusView {
    pub status: u16,
    pub headers: Seq<Edit>,
    pub body: Seq<char>,
}

impl View for StatusResponse {
    type V = StatusView;

    open spec fn view(&self) -> StatusView {
        StatusView { status: self.status, headers: edits(self.headers), body: self.body@ }
    }
}

/// A plain text response that is not to be stored.
pub open spec fn status_response(status: u16, body: Seq<char>) -> StatusView {
    StatusView {
        status,
        headers: seq![
            ("content-type"@, Some("text/plain; charset=utf-8"@)),
            ("content-length"@, Some(decimal(encode_utf8(body).len()))),
            ("cache-control"@, Some("no-store"@)),
        ],
        body,
    }
}

impl StatusResponse {
    /// A plain text response that is not to be stored.
    pub fn new(status: u16, body: &'static str) -> (response: Self)
        ensures
            response@ == status_response(status, body@),
    {
        let mut headers: Vec<HeaderEdit> = Vec::new();
        set_header(&mut headers, "content-type", "text/plain; charset=utf-8".to_owned());
        set_header(&mut headers, "content-length", to_decimal(body.as_bytes().len()));
        set_header(&mut headers, "cache-control", "no-store".to_owned());
        assert(edits(headers) =~= status_response(status, body@).headers);
        StatusResponse { status, headers, body }
    }
}

/// What is done with a request: it is answered, or forwarded to an upstream, with another
/// request target where there is one.
#[derive(Debug)]
pub enum Decision {
    Respond(StatusResponse),
    Forward { upstream: Upstream, target: Option<Uri> },
}

/// What is done with a request.
pub enum DecisionView {
    Respond(StatusView),
    Forward { upstream: Seq<char>, target: Option<(Seq<char>, UriParts)> },
}

impl View for Decision {
    type V = DecisionView;

    open spec fn view(&self) -> DecisionView {
        match *self {
            Decision::Respond(response) => DecisionView::Respond(response@),
            Decision::Forward { upstream, target } => DecisionView::Forward {
                upstream: upstream@,
                target: optional_target(target),
            },
        }
    }
}

/// The text of the `Host` header; nothing where it is absent or not text.
pub open spec fn host_text(headers: http::HeaderMap<http::HeaderValue>) -> Seq<char> {
    match header_text(headers, "host"@) {
        Some(text) => text,
        None => Seq::empty(),
    }
}

impl ProxyHosts {
    /// What is done with a request for `path` at `host`. `ghcr` is the request target if the
    /// request is for GHCR, and `github` the upstream and the request target if its path holds
    /// the URL of a host of GitHub's own.
    pub open spec fn decide(
        self,
        path: Seq<char>,
        host: Seq<char>,
        ghcr: Option<(Seq<char>, UriParts)>,
        github: Option<(Seq<char>, (Seq<char>, UriParts))>,
    ) -> DecisionView {
        if path == "/healthz"@ {
            DecisionView::Respond(status_response(200, "ok\n"@))
        } else {
            match self.route(host) {
                Some(upstream) => if upstream == DOCKER_REGISTRY@ && ghcr is Some {
                    DecisionView::Forward { upstream: GHCR@, target: ghcr }
                } else if upstream == GITHUB@ && is_url_format(path) {
                    match github {
                        Some((upstream, target)) => DecisionView::Forward {
                            upstream,
                            target: Some(target),
                        },
                        None => DecisionView::Respond(
                            status_response(400, "github URL not allowed\n"@),
                        ),
                    }
                } else {
                    DecisionView::Forward { upstream, target: None }
                },
                None => DecisionView::Respond(status_response(421, "host not allowed\n"@)),
            }
        }
    }

    /// What is done with a request for `uri` at `host`.
    pub open spec fn decision(self, uri: UriParts, host: Seq<char>) -> DecisionView {
        self.decide(
            uri.path,
            host,
            ghcr_target(uri.path_and_query),
            github_target(uri.path_and_query),
        )
    }

    /// The changes to the headers of a response. `redirect` is where its redirect is sent
    /// instead, and `challenge` the challenge that it holds.
    pub open spec fn response_edits(
        self,
        upstream: Option<Seq<char>>,
        redirect: Option<Seq<char>>,
        challenge: Option<Seq<char>>,
    ) -> Seq<Edit> {
        let removed: Seq<Edit> = seq![("server"@, None), ("via"@, None)];
        let redirected: Seq<Edit> = if upstream is Some && upstream != Some(DOCKER_REGISTRY@)
            && redirect is Some {
            seq![("location"@, redirect), ("cache-control"@, Some("no-store"@))]
        } else {
            seq![]
        };
        let challenged: Seq<Edit> = if (upstream == Some(DOCKER_REGISTRY@) || upstream == Some(
            GHCR@,
        )) && challenge is Some {
            seq![("www-authenticate"@, Some(self.challenge(upstream->0, challenge->0)))]
        } else {
            seq![]
        };
        removed + redirected + challenged
    }

    /// Where the redirect that a response holds is sent instead.
    pub open spec fn response_redirect(self, location: Option<Seq<char>>) -> Option<Seq<char>> {
        match location {
            Some(location) => self.redirect(location),
            None => None,
        }
    }
}

/// The changes to the headers of a request that goes to `upstream`.
pub open spec fn request_edits(upstream: Seq<char>) -> Seq<Edit> {
    seq![
        ("host"@, Some(upstream)),
        ("via"@, None),
        ("x-forwarded-host"@, None),
        ("x-forwarded-server"@, None),
    ]
}

/// The line that is logged for a failed request.
pub open spec fn error_line(
    upstream: Option<Seq<char>>,
    path: Seq<char>,
    error: Seq<char>,
) -> Seq<char> {
    let host = match upstream {
        Some(host) => host,
        None => "none"@,
    };
    "proxy error upstream="@ + host + " path="@ + path + " error="@ + error
}

impl Proxy {
    /// What is done with a request for `uri` at `host`, given the targets that it has.
    pub fn decide(
        &self,
        uri: &Uri,
        host: &str,
        ghcr: Option<Uri>,
        github: Option<(Upstream, Uri)>,
    ) -> (decision: Decision)
        ensures
            decision@ == self@.decide(
                uri@.path,
                host@,
                optional_target(ghcr),
                target_view(github),
            ),
    {
        if same(uri.path.as_str(), "/healthz") {
            return Decision::Respond(StatusResponse::new(200, "ok\n"));
        }
        let upstream = match self.route(host) {
            Some(upstream) => upstream,
            None => return Decision::Respond(StatusResponse::new(421, "host not allowed\n")),
        };
        if same(upstream.host, DOCKER_REGISTRY) && ghcr.is_some() {
            return Decision::Forward { upstream: Upstream::new(GHCR), target: ghcr };
        }
        if same(upstream.host, GITHUB) && Self::is_github_url_format(uri) {
            return match github {
                Some((upstream, target)) => Decision::Forward { upstream, target: Some(target) },
                None => Decision::Respond(StatusResponse::new(400, "github URL not allowed\n")),
            };
        }
        Decision::Forward { upstream, target: None }
    }

    /// What is done with a request for `uri` with the given headers. The upstream of a request
    /// that is forwarded is noted in the context.
    pub fn request_filter(
        &self,
        uri: &Uri,
        headers: &http::HeaderMap<http::HeaderValue>,
        ctx: &mut RequestContext,
    ) -> (decision: Decision)
        ensures
            decision@ == self@.decision(uri@, host_text(*headers)),
            match decision {
                Decision::Respond(_) => final(ctx).upstream == old(ctx).upstream,
                Decision::Forward { upstream, .. } => final(ctx).upstream == Some(upstream),
            },
    {
        let host = match read_header(headers, "host") {
            Some(host) => host,
            None => String::new(),
        };
        let mut ghcr: Option<Uri> = None;
        let mut github: Option<(Upstream, Uri)> = None;
        if let Some(upstream) = self.route(host.as_str()) {
            if same(upstream.host, DOCKER_REGISTRY) {
                ghcr = Self::ghcr_target(uri);
            } else if same(upstream.host, GITHUB) && Self::is_github_url_format(uri) {
                github = Self::github_url_target(uri);
            }
        }
        proof {
            reveal_strlit("github.com");
            reveal_strlit("registry-1.docker.io");
            assert(GITHUB@.len() != DOCKER_REGISTRY@.len());
        }
        let decision = self.decide(uri, host.as_str(), ghcr, github);
        if let Decision::Forward { upstream, .. } = &decision {
            ctx.upstream = Some(*upstream);
        }
        decision
    }

    /// How the upstream of a request is connected to.
    pub fn upstream_peer(&self, ctx: &RequestContext) -> (peer: Peer)
        requires
            ctx.upstream is Some,
        ensures
            peer.address@ == ctx.upstream->0@ + ":443"@,
            peer.tls,
            peer.sni@ == ctx.upstream->0@,
            peer.connection_timeout == CONNECT_TIMEOUT,
            peer.total_connection_timeout == CONNECT_TIMEOUT,
            peer.read_timeout == IO_TIMEOUT,
            peer.write_timeout == IO_TIMEOUT,
            peer.idle_timeout == IDLE_TIMEOUT,
            peer.alpn == Alpn::Http1,
            peer.connection_timeout == 3,
            peer.read_timeout == 300,
            peer.idle_timeout == 90,
    {
        let upstream = ctx.upstream.unwrap();
        Peer {
            address: upstream.address(),
            tls: true,
            sni: upstream.host.to_owned(),
            connection_timeout: CONNECT_TIMEOUT,
            total_connection_timeout: CONNECT_TIMEOUT,
            read_timeout: IO_TIMEOUT,
            write_timeout: IO_TIMEOUT,
            idle_timeout: IDLE_TIMEOUT,
            alpn: Alpn::Http1,
        }
    }

    /// The changes to the headers of a request that is forwarded.
    pub fn upstream_request_filter(&self, ctx: &RequestContext) -> (changes: Vec<HeaderEdit>)
        requires
            ctx.upstream is Some,
        ensures
            edits(changes) == request_edits(ctx.upstream->0@),
    {
        let upstream = ctx.upstream.unwrap();
        let mut changes: Vec<HeaderEdit> = Vec::new();
        set_header(&mut changes, "host", upstream.host.to_owned());
        remove_header(&mut changes, "via");
        remove_header(&mut changes, "x-forwarded-host");
        remove_header(&mut changes, "x-forwarded-server");
        assert(edits(changes) =~= request_edits(upstream@));
        changes
    }

    /// The changes to the headers of a response, given where its redirect is sent instead and
    /// the challenge that it holds.
    pub fn response_edits(
        &self,
        ctx: &RequestContext,
        redirect: Option<String>,
        challenge: Option<String>,
    ) -> (changes: Vec<HeaderEdit>)
        requires
            upstream_host(ctx.upstream) == Some(GHCR@) && challenge is Some
                ==> self.docker_host is Some,
        ensures
            edits(changes) == self@.response_edits(
                upstream_host(ctx.upstream),
                redirect.deep_view(),
                challenge.deep_view(),
            ),
    {
        let mut changes: Vec<HeaderEdit> = Vec::new();
        remove_header(&mut changes, "server");
        remove_header(&mut changes, "via");
        if let Some(upstream) = ctx.upstream {
            let registry = same(upstream.host, DOCKER_REGISTRY);
            if !registry {
                if let Some(redirect) = redirect {
                    set_header(&mut changes, "location", redirect);
                    set_header(&mut changes, "cache-control", "no-store".to_owned());
                }
            }
            if registry || same(upstream.host, GHCR) {
                if let Some(challenge) = challenge {
                    let rewritten = self.challenge(upstream, challenge.as_str());
                    set_header(&mut changes, "www-authenticate", rewritten);
                }
            }
        }
        assert(edits(changes) =~= self@.response_edits(
            upstream_host(ctx.upstream),
            redirect.deep_view(),
            challenge.deep_view(),
        ));
        changes
    }

    /// The changes to the given headers of a response.
    pub fn upstream_response_filter(
        &self,
        ctx: &RequestContext,
        headers: &http::HeaderMap<http::HeaderValue>,
    ) -> (changes: Vec<HeaderEdit>)
        requires
            upstream_host(ctx.upstream) == Some(GHCR@) && header_text(
                *headers,
                "www-authenticate"@,
            ) is Some ==> self.docker_host is Some,
        ensures
            edits(changes) == self@.response_edits(
                upstream_host(ctx.upstream),
                self@.response_redirect(header_text(*headers, "location"@)),
                header_text(*headers, "www-authenticate"@),
            ),
    {
        let redirect = match read_header(headers, "location") {
            Some(location) => self.github_proxy_redirect(location.as_str()),
            None => None,
        };
        let challenge = read_header(headers, "www-authenticate");
        self.response_edits(ctx, redirect, challenge)
    }

    /// The line that is logged for a request that failed.
    pub fn logging(&self, path: &str, error: Option<&str>, ctx: &RequestContext) -> (line: Option<
        String,
    >)
        ensures
            line.deep_view() == match optional(error) {
                Some(error) => Some(error_line(upstream_host(ctx.upstream), path@, error)),
                None => None,
            },
    {
        match error {
            Some(error) => {
                let host = match ctx.upstream {
                    Some(upstream) => upstream.host,
                    None => "none",
                };
                let mut line = "proxy error upstream=".to_owned();
                line.append(host);
                line.append(" path=");
                line.append(path);
                line.append(" error=");
                line.append(error);
                Some(line)
            },
            None => None,
        }
    }
}

} // verus!
