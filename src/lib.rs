//! A typed client core for a Kubernetes-style REST API: resource paths and
//! query strings, response classification, watch-stream framing, pagination
//! and apiVersion/kind validation.
pub mod frame;
pub mod request;
pub mod error;
pub mod meta;
pub mod client;
pub mod stream;
