//! The rules of a streaming reverse proxy for GitHub, Docker Hub and GHCR: which upstream a request
//! goes to, with which target, and what is changed in its headers and in those of the response.

pub mod decision_laws;
pub mod docker;
pub mod filter;
pub mod github;
pub mod header;
pub mod host_laws;
pub mod message_laws;
pub mod proxy;
pub mod request_laws;
pub mod response_laws;
pub mod text;
pub mod text_laws;
pub mod upstream;
pub mod uri;
pub mod uri_laws;
