use vstd::prelude::*;

use crate::error::ServiceError;
use crate::text::{concat, has_prefix, starts_with, suffix_from};

verus! {

/// One entry of the route mapping: requests whose path starts with
/// `public_prefix` go to `base_url`, with `public_prefix` replaced by
/// `internal_prefix`.
pub struct Route {
    pub public_prefix: String,
    pub base_url: String,
    pub internal_prefix: String,
}

/// The gateway's static route mapping.
pub struct RouteTable {
    pub routes: Vec<Route>,
}

/// An HTTP header: a name and its raw value.
#[derive(Clone, Debug)]
pub struct Header {
    pub name: String,
    pub value: Vec<u8>,
}

/// A request as it is sent to the upstream service.
pub struct ForwardRequest {
    pub method: String,
    pub url: String,
    pub headers: Vec<Header>,
    pub body: Vec<u8>,
}

/// A response as the upstream service returned it.
pub struct UpstreamResponse {
    pub status: u16,
    pub headers: Vec<Header>,
    pub body: Vec<u8>,
}

/// The stages at which forwarding a request can fail.
#[derive(Debug, Clone, Copy, PartialEq, Eq, Structural)]
pub enum ProxyFailure {
    /// The inbound request body could not be read.
    InboundBody,
    /// The request could not be sent to the upstream service.
    UpstreamSend,
    /// The upstream response could not be read.
    UpstreamBody,
    /// The response to the client could not be constructed.
    ResponseBuild,
}

pub open spec fn route_matches(r: Route, path: Seq<char>) -> bool {
    has_prefix(path, r.public_prefix@)
}

pub open spec fn prefix_len(r: Route) -> nat {
    r.public_prefix@.len()
}

/// `i` is the route that serves `path`: it matches, no matching route has a
/// longer prefix, and no earlier matching route has a prefix as long.
pub open spec fn is_best_route(routes: Seq<Route>, path: Seq<char>, i: int) -> bool {
    &&& 0 <= i < routes.len()
    &&& route_matches(routes[i], path)
    &&& forall|j: int|
        0 <= j < routes.len() && route_matches(#[trigger] routes[j], path) ==> prefix_len(routes[j])
            <= prefix_len(routes[i])
    &&& forall|j: int|
        0 <= j < i && route_matches(#[trigger] routes[j], path) ==> prefix_len(routes[j])
            < prefix_len(routes[i])
}

pub open spec fn no_route(routes: Seq<Route>, path: Seq<char>) -> bool {
    forall|j: int| 0 <= j < routes.len() ==> !route_matches(#[trigger] routes[j], path)
}

/// The internal address that `path` is rewritten to under route `r`.
pub open spec fn rewritten(r: Route, path: Seq<char>) -> Seq<char> {
    r.base_url@ + r.internal_prefix@ + path.subrange(prefix_len(r) as int, path.len() as int)
}

/// What the gateway answers for a failure at each stage.
pub open spec fn failure_error(f: ProxyFailure) -> ServiceError {
    match f {
        ProxyFailure::InboundBody => ServiceError::BadRequest,
        ProxyFailure::UpstreamSend => ServiceError::BadGateway,
        ProxyFailure::UpstreamBody => ServiceError::BadGateway,
        ProxyFailure::ResponseBuild => ServiceError::Internal,
    }
}

impl RouteTable {
    /// The index of the route with the longest public prefix of `path`
    /// (the first of equal length), if any route matches.
    pub fn best_route(&self, path: &str) -> (r: Option<usize>)
        ensures
            match r {
                None => no_route(self.routes@, path@),
                Some(i) => is_best_route(self.routes@, path@, i as int),
            },
    {
        let mut best: Option<usize> = None;
        let mut i: usize = 0;
        while i < self.routes.len()
            invariant
                i <= self.routes@.len(),
                match best {
                    None => forall|j: int|
                        0 <= j < i ==> !route_matches(#[trigger] self.routes@[j], path@),
                    Some(b) => {
                        &&& b < i
                        &&& route_matches(self.routes@[b as int], path@)
                        &&& forall|j: int|
                            0 <= j < i && route_matches(#[trigger] self.routes@[j], path@)
                                ==> prefix_len(self.routes@[j]) <= prefix_len(
                                self.routes@[b as int],
                            )
                        &&& forall|j: int|
                            0 <= j < b && route_matches(#[trigger] self.routes@[j], path@)
                                ==> prefix_len(self.routes@[j]) < prefix_len(
                                self.routes@[b as int],
                            )
                    },
                },
            decreases self.routes@.len() - i,
        {
            let route = &self.routes[i];
            if starts_with(path, route.public_prefix.as_str()) {
                let better = match best {
                    None => true,
                    Some(b) => self.routes[b].public_prefix.as_str().unicode_len()
                        < route.public_prefix.as_str().unicode_len(),
                };
                if better {
                    best = Some(i);
                }
            }
            i = i + 1;
        }
        best
    }

    /// The internal address that `path` is forwarded to, or `None` when no
    /// route is configured for it.
    pub fn resolve(&self, path: &str) -> (r: Option<String>)
        ensures
            r is None <==> no_route(self.routes@, path@),
            r matches Some(url) ==> exists|i: int|
                is_best_route(self.routes@, path@, i) && url@ == rewritten(
                    self.routes@[i],
                    path@,
                ),
    {
        match self.best_route(path) {
            None => None,
            Some(i) => {
                let route = &self.routes[i];
                let n = route.public_prefix.as_str().unicode_len();
                let rest = suffix_from(path, n);
                let head = concat(route.base_url.as_str(), route.internal_prefix.as_str());
                let url = concat(head.as_str(), rest.as_str());
                assert(is_best_route(self.routes@, path@, i as int));
                Some(url)
            },
        }
    }
}

/// Decides how to forward a request: the target address comes from the route
/// table, while method, headers and body pass through unchanged. An unrouted
/// path is `NotFound` before anything else; an unreadable body (`None`) is
/// `BadRequest`.
pub fn proxy_request(
    table: &RouteTable,
    method: String,
    path: &str,
    headers: Vec<Header>,
    body: Option<Vec<u8>>,
) -> (r: Result<ForwardRequest, ServiceError>)
    ensures
        no_route(table.routes@, path@) ==> r == Err::<ForwardRequest, ServiceError>(
            ServiceError::NotFound,
        ),
        !no_route(table.routes@, path@) && body is None ==> r == Err::<
            ForwardRequest,
            ServiceError,
        >(ServiceError::BadRequest),
        !no_route(table.routes@, path@) && body is Some ==> r is Ok,
        r matches Ok(f) ==> {
            &&& f.method == method
            &&& f.headers == headers
            &&& body == Some(f.body)
            &&& exists|i: int|
                is_best_route(table.routes@, path@, i) && f.url@ == rewritten(
                    table.routes@[i],
                    path@,
                )
        },
{
    match table.resolve(path) {
        None => Err(ServiceError::NotFound),
        Some(url) => match body {
            None => Err(ServiceError::BadRequest),
            Some(body) => Ok(ForwardRequest { method, url, headers, body }),
        },
    }
}

/// The error that a failure at stage `f` is reported as.
pub fn failure_status(f: ProxyFailure) -> (r: ServiceError)
    ensures
        r == failure_error(f),
{
    match f {
        ProxyFailure::InboundBody => ServiceError::BadRequest,
        ProxyFailure::UpstreamSend => ServiceError::BadGateway,
        ProxyFailure::UpstreamBody => ServiceError::BadGateway,
        ProxyFailure::ResponseBuild => ServiceError::Internal,
    }
}

/// What the client receives for the upstream exchange: the upstream response
/// itself, unchanged, or the error that its failure maps to.
pub fn relay_response(upstream: Result<UpstreamResponse, ProxyFailure>) -> (r: Result<
    UpstreamResponse,
    ServiceError,
>)
    ensures
        upstream matches Ok(u) ==> r matches Ok(v) && v == u,
        upstream matches Err(f) ==> r == Err::<UpstreamResponse, ServiceError>(failure_error(f)),
{
    match upstream {
        Ok(u) => Ok(u),
        Err(f) => Err(failure_status(f)),
    }
}

} // verus!
