//! A minimal HTTP service core: routing of (method, path) requests to two
//! fixed handlers, and serialization of their responses.
//!
//! The transport (listener, connections, status codes) is left to the caller;
//! this crate decides which handler a request reaches and what bytes it
//! answers with.

pub mod handlers;
pub mod http;
pub mod json;
pub mod router;
