//! How the example guest component answers an incoming HTTP request: the root
//! path is greeted, every other path and query is not found.
use vstd::prelude::*;
use crate::text::str_eq;

verus! {

/// The two ways the guest answers a request.
#[derive(Debug, Clone, Copy, PartialEq, Eq, Structural)]
pub enum GuestRoute {
    /// The request was for `/`.
    Root,
    /// Any other path and query.
    NotFound,
}

/// The route of a request, by its path and query.
pub open spec fn route_spec(path_and_query: Seq<char>) -> GuestRoute {
    if path_and_query == "/"@ {
        GuestRoute::Root
    } else {
        GuestRoute::NotFound
    }
}

/// The HTTP status that answers a route.
pub open spec fn status_spec(route: GuestRoute) -> u16 {
    match route {
        GuestRoute::Root => 200,
        GuestRoute::NotFound => 404,
    }
}

/// The body that answers a route.
pub open spec fn body_spec(route: GuestRoute) -> Seq<char> {
    match route {
        GuestRoute::Root => "response"@,
        GuestRoute::NotFound => ""@,
    }
}

/// Picks the route for a request's path and query: only `/` itself is the root;
/// a query string makes it another path.
pub fn route(path_and_query: &str) -> (r: GuestRoute)
    ensures
        r == route_spec(path_and_query@),
{
    if str_eq(path_and_query, "/") {
        GuestRoute::Root
    } else {
        GuestRoute::NotFound
    }
}

impl GuestRoute {
    /// The status code of the answer: 200 OK for the root, 404 Not Found otherwise.
    pub fn status(&self) -> (s: u16)
        ensures
            s == status_spec(*self),
    {
        match self {
            GuestRoute::Root => 200,
            GuestRoute::NotFound => 404,
        }
    }

    /// The text written as the answer's body: `response` for the root, nothing otherwise.
    pub fn body(&self) -> (b: &'static str)
        ensures
            b@ == body_spec(*self),
    {
        match self {
            GuestRoute::Root => "response",
            GuestRoute::NotFound => "",
        }
    }

    /// The line the guest prints before it answers, if any: only the root handler
    /// greets.
    pub fn greeting(&self) -> (g: Option<&'static str>)
        ensures
            *self == GuestRoute::Root ==> (g matches Some(m) && m@ == "Hello! - from root HTTP handler"@),
            *self == GuestRoute::NotFound ==> g is None,
    {
        match self {
            GuestRoute::Root => Some("Hello! - from root HTTP handler"),
            GuestRoute::NotFound => None,
        }
    }
}

/// Only a request for `/` itself is answered with 200 OK; every other path and
/// query is answered with 404 Not Found and an empty body.
pub proof fn lemma_only_root_is_served(path_and_query: Seq<char>)
    ensures
        status_spec(route_spec(path_and_query)) == 200 <==> path_and_query == "/"@,
        path_and_query != "/"@ ==> status_spec(route_spec(path_and_query)) == 404
            && body_spec(route_spec(path_and_query)) == ""@,
{
}

} // verus!
