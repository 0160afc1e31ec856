//! Request routing: an explicit table of exact-literal (method, path) keys,
//! each bound to one handler. Matching is case-sensitive, does not normalize
//! trailing slashes, and a request that matches no key is refused with
//! `RouteError::RouteNotFound`; the wire-level status code for that case is
//! the transport's concern, not this crate's.

use vstd::prelude::*;
use vstd::string::StrSliceExecFns;

use crate::handlers;
use crate::http::ContentType;
use crate::http::Method;
use crate::http::Response;
use crate::http::RouteError;

verus! {

/// Identifies one of the two handlers a route can be bound to.
#[derive(Clone, Copy, Debug, PartialEq, Eq, Structural)]
pub enum HandlerId {
    Root,
    Hello,
}

/// One row of the dispatch table.
pub struct Route {
    pub method: Method,
    pub path: String,
    pub handler: HandlerId,
}

/// The dispatch table.
pub struct Router {
    pub routes: Vec<Route>,
}

/// The handler a request reaches, as a function of the request alone.
pub open spec fn spec_route_of(method: Method, path: Seq<char>) -> Option<HandlerId> {
    if method == Method::Get && path == "/"@ {
        Some(HandlerId::Root)
    } else if method == Method::Get && path == "/hello"@ {
        Some(HandlerId::Hello)
    } else {
        None
    }
}

/// The content type and body bytes each handler answers with.
pub open spec fn spec_handler_output(h: HandlerId) -> (ContentType, Seq<u8>) {
    match h {
        HandlerId::Root => (ContentType::TextPlain, handlers::root_body()),
        HandlerId::Hello => (ContentType::ApplicationJson, handlers::hello_body()),
    }
}

/// What dispatching a request must yield: the matched handler's output, or
/// `RouteNotFound` when no route matches.
pub open spec fn spec_dispatch(method: Method, path: Seq<char>) -> Result<
    (ContentType, Seq<u8>),
    RouteError,
> {
    match spec_route_of(method, path) {
        Some(h) => Ok(spec_handler_output(h)),
        None => Err(RouteError::RouteNotFound),
    }
}

/// The observable part of a dispatch result: the content type and body bytes
/// on success, the error otherwise.
pub open spec fn response_view(r: Result<Response, RouteError>) -> Result<
    (ContentType, Seq<u8>),
    RouteError,
> {
    match r {
        Ok(resp) => Ok((resp.content_type, resp.body@)),
        Err(e) => Err(e),
    }
}

/// Compares two strings character by character.
pub fn str_eq(a: &str, b: &str) -> (r: bool)
    ensures
        r == (a@ == b@),
{
    let na: usize = a.unicode_len();
    let nb: usize = b.unicode_len();
    if na != nb {
        return false;
    }
    let mut i: usize = 0;
    while i < na
        invariant
            na == a@.len(),
            nb == b@.len(),
            na == nb,
            i <= na,
            forall|j: int| 0 <= j < i ==> a@[j] == b@[j],
        decreases na - i,
    {
        let ca = a.get_char(i);
        let cb = b.get_char(i);
        if ca != cb {
            return false;
        }
        i = i + 1;
    }
    proof {
        assert(a@ =~= b@);
    }
    true
}

impl Router {
    /// No two rows of the table share a (method, path) key.
    pub open spec fn wf(self) -> bool {
        forall|i: int, j: int|
            0 <= i < j < self.routes@.len() ==> !(self.routes@[i].method == self.routes@[j].method
                && self.routes@[i].path@ == self.routes@[j].path@)
    }

    /// The table a fresh router holds: the two fixed routes, in order.
    pub open spec fn is_standard_table(self) -> bool {
        &&& self.routes@.len() == 2
        &&& self.routes@[0].method == Method::Get
        &&& self.routes@[0].path@ == "/"@
        &&& self.routes@[0].handler == HandlerId::Root
        &&& self.routes@[1].method == Method::Get
        &&& self.routes@[1].path@ == "/hello"@
        &&& self.routes@[1].handler == HandlerId::Hello
    }

    /// Builds the dispatch table, which holds exactly the two routes and has
    /// no duplicate (method, path) key.
    pub fn new() -> (r: Router)
        ensures
            r.is_standard_table(),
            r.wf(),
    {
        let mut routes: Vec<Route> = Vec::new();
        routes.push(Route { method: Method::Get, path: "/".to_owned(), handler: HandlerId::Root });
        routes.push(
            Route { method: Method::Get, path: "/hello".to_owned(), handler: HandlerId::Hello },
        );
        let r = Router { routes };
        proof {
            reveal_strlit("/");
            reveal_strlit("/hello");
            assert(r.is_standard_table());
            assert(r.routes@[0].path@.len() != r.routes@[1].path@.len());
        }
        r
    }

    /// Matches the request against the table and invokes the matched handler
    /// exactly once, or reports that no route fits.
    pub fn dispatch(&self, method: Method, path: &str) -> (r: Result<Response, RouteError>)
        requires
            self.is_standard_table(),
        ensures
            response_view(r) == spec_dispatch(method, path@),
    {
        let n: usize = self.routes.len();
        let mut i: usize = 0;
        while i < n
            invariant
                self.is_standard_table(),
                n == self.routes@.len(),
                i <= n,
                forall|j: int|
                    0 <= j < i ==> !(self.routes@[j].method == method && self.routes@[j].path@
                        == path@),
            decreases n - i,
        {
            let route = &self.routes[i];
            if route.method == method && str_eq(route.path.as_str(), path) {
                proof {
                    reveal_strlit("/");
                    reveal_strlit("/hello");
                    assert("/"@.len() != "/hello"@.len());
                }
                let resp = match route.handler {
                    HandlerId::Root => handlers::root_handler(),
                    HandlerId::Hello => handlers::hello_handler(),
                };
                return Ok(resp);
            }
            i = i + 1;
        }
        proof {
            assert(!(self.routes@[0].method == method && self.routes@[0].path@ == path@));
            assert(!(self.routes@[1].method == method && self.routes@[1].path@ == path@));
        }
        Err(RouteError::RouteNotFound)
    }
}

/// Routes one request through the standard table.
pub fn handle_request(method: Method, path: &str) -> (r: Result<Response, RouteError>)
    ensures
        response_view(r) == spec_dispatch(method, path@),
{
    let router = Router::new();
    router.dispatch(method, path)
}

/// Dispatch decides by the request alone: two results obtained for the same
/// method and path are observably identical, byte for byte.
pub proof fn lemma_dispatch_idempotent(
    method: Method,
    path: Seq<char>,
    r1: Result<Response, RouteError>,
    r2: Result<Response, RouteError>,
)
    requires
        response_view(r1) == spec_dispatch(method, path),
        response_view(r2) == spec_dispatch(method, path),
    ensures
        response_view(r1) == response_view(r2),
{
}

/// A request whose key is neither (GET, "/") nor (GET, "/hello") is refused
/// with `RouteNotFound`.
pub proof fn lemma_unmatched_is_not_found(method: Method, path: Seq<char>)
    requires
        !(method == Method::Get && path == "/"@),
        !(method == Method::Get && path == "/hello"@),
    ensures
        spec_dispatch(method, path) == Err::<(ContentType, Seq<u8>), RouteError>(
            RouteError::RouteNotFound,
        ),
{
}

} // verus!
