//! Request and response shapes: HTTP methods, content types, the response
//! carried back to the transport, and the one routing error.

use vstd::prelude::*;

verus! {

/// The standard HTTP request methods.
#[derive(Clone, Copy, Debug, PartialEq, Eq, Structural)]
pub enum Method {
    Get,
    Head,
    Post,
    Put,
    Delete,
    Connect,
    Options,
    Trace,
    Patch,
}

/// The content type a handler declares for its response body.
#[derive(Clone, Copy, Debug, PartialEq, Eq, Structural)]
pub enum ContentType {
    TextPlain,
    ApplicationJson,
}

/// A successful handler result: the body bytes to put on the wire and the
/// content type to announce for them.
pub struct Response {
    pub content_type: ContentType,
    pub body: Vec<u8>,
}

/// The only error this core can raise: no route matches the request.
#[derive(Clone, Copy, Debug, PartialEq, Eq, Structural)]
pub enum RouteError {
    RouteNotFound,
}

} // verus!
