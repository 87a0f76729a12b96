//! Redirects plain `http` requests to their `https` equivalent.
//!
//! The crate holds the decision and the URL arithmetic of a redirect filter
//! that sits in front of a request pipeline. It is independent of any web
//! framework: a host hands it the scheme, host and request target of a
//! request, and receives either the answer of the next stage or a permanent
//! redirect to the secure URL.

pub mod config;
pub mod replace;
pub mod rewrite;
pub mod service;
pub mod text;

pub use config::RedirectHTTPS;
pub use service::RedirectHTTPSService;
