//! Request routing for a reverse proxy: an ordered table of host and path
//! patterns that rewrites where a request is sent, and a filter that adds
//! cross-origin headers to responses.

pub mod cors;
pub mod error;
pub mod headers;
pub mod message;
pub mod pattern;
pub mod router;
pub mod uri;
