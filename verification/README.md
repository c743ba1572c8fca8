# gh-proxy

A streaming reverse proxy for GitHub, Docker Hub and GHCR. It answers for up to three hosts:

| Host | Upstream |
| --- | --- |
| the GitHub host | GitHub; with a URL in the path also its API, raw, codeload, object and release hosts |
| the Docker host | `registry-1.docker.io`, and `ghcr.io` for paths under `/v2/ghcr.io` and `/ghcr.io` |
| the Docker token host | `auth.docker.io` |

The rules are a library that is verified with Verus:

- `src/text.rs`, `src/uri.rs` and `src/header.rs` read texts, URIs and headers.
- `src/upstream.rs` and `src/proxy.rs` hold the upstreams and the hosts that stand for them.
- `src/github.rs` and `src/docker.rs` hold the rules for GitHub URLs, redirects, images of GHCR
  and challenges.
- `src/filter.rs` decides what is done with a request, with the connection to its upstream and
  with the response.
- `src/host_laws.rs`, `src/request_laws.rs` and `src/response_laws.rs` state and prove what holds
  of the rules together.

`app/` is the server around it: the command line, and the filters of Pingora, which ask the
library what to do. URIs and header values are read with the `http` crate; what the proofs take
for granted of it stands in the contracts of the functions that call it.

```bash
gh-proxy --listen 0.0.0.0:1555 --github-host gh.example --docker-host docker.example
```
