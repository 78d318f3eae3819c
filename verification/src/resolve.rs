//! Destination resolver: from the caller's identity, or from the application
//! a request names, to the one endpoint the request is sent to.

use crate::error::ForwardError;
use crate::header::{
    fields, find_header, is_visible_text, value_of, visible_text, Header, APPLICATION_HEADER,
    HOST_HEADER,
};
use crate::mode::ForwardMode;
use crate::tables::{Routes, RoutingTables};
use crate::uri::{parsed_host, uri_host};
use rand::Rng;
use vstd::prelude::*;

verus! {

/// Where a request goes.
#[derive(Clone, Debug, PartialEq, Eq)]
pub struct Route {
    /// Host and port of the destination.
    pub endpoint: String,
    /// The application name to assert to the destination, where this hop
    /// vouches for it.
    pub application: Option<String>,
}

/// The view of a [`Route`].
pub struct RouteView {
    pub endpoint: Seq<char>,
    pub application: Option<Seq<char>>,
}

impl View for Route {
    type V = RouteView;

    open spec fn view(&self) -> RouteView {
        RouteView { endpoint: self.endpoint@, application: self.application.deep_view() }
    }
}

/// A result with its value seen through its view.
pub open spec fn viewed<T: View>(result: Result<T, ForwardError>) -> Result<T::V, ForwardError> {
    match result {
        Ok(value) => Ok(value@),
        Err(error) => Err(error),
    }
}

/// Edge rule: a caller bound in both edge tables goes to its endpoint, tagged
/// with its application; any other caller has no route.
pub open spec fn edge_route(routes: Routes, client: Seq<char>) -> Result<RouteView, ForwardError> {
    if routes.endpoints.contains_key(client) && routes.applications.contains_key(client) {
        Ok(
            RouteView {
                endpoint: routes.endpoints[client],
                application: Some(routes.applications[client]),
            },
        )
    } else {
        Err(ForwardError::RouteNotFound)
    }
}

/// Worker rule: the request must name an application, the application must
/// be bound, and its pool must not be empty; then `draw` picks the endpoint.
pub open spec fn worker_route(routes: Routes, application: Option<Seq<char>>, draw: int) -> Result<
    RouteView,
    ForwardError,
> {
    match application {
        None => Err(ForwardError::HeaderMissing),
        Some(name) => {
            if !routes.pools.contains_key(name) {
                Err(ForwardError::RouteNotFound)
            } else if routes.pools[name].len() == 0 {
                Err(ForwardError::PoolEmpty)
            } else {
                let pool = routes.pools[name];
                Ok(RouteView { endpoint: pool[draw % (pool.len() as int)], application: None })
            }
        },
    }
}

/// The host read from the first field of `headers` named `name`, provided
/// the field is there, is text, and the URI parser finds a host in it.
pub open spec fn host_under(headers: Seq<(Seq<char>, Seq<u8>)>, name: Seq<char>) -> Option<
    Seq<char>,
> {
    match value_of(headers, name) {
        Some(value) => if is_visible_text(value) {
            parsed_host(value)
        } else {
            None
        },
        None => None,
    }
}

/// The application that a header list names.
pub open spec fn application_named(headers: Seq<(Seq<char>, Seq<u8>)>) -> Option<Seq<char>> {
    host_under(headers, APPLICATION_HEADER@)
}

/// Resolves the caller `client` in edge mode.
pub fn resolve_edge(tables: &RoutingTables, client: &str) -> (route: Result<Route, ForwardError>)
    ensures
        viewed(route) == edge_route(tables@, client@),
{
    match tables.lookup_endpoint(client) {
        Some(endpoint) => match tables.lookup_application(client) {
            Some(name) => Ok(Route { endpoint: endpoint.clone(), application: Some(name.clone()) }),
            None => Err(ForwardError::RouteNotFound),
        },
        None => Err(ForwardError::RouteNotFound),
    }
}

/// Resolves a request for `application` in worker mode, with `draw` as the
/// number that picks among the candidates.
pub fn resolve_worker_with(tables: &RoutingTables, application: &Option<String>, draw: usize) -> (route:
    Result<Route, ForwardError>)
    ensures
        viewed(route) == worker_route(tables@, application.deep_view(), draw as int),
{
    match application {
        None => Err(ForwardError::HeaderMissing),
        Some(name) => match tables.lookup_worker_pool(name.as_str()) {
            None => Err(ForwardError::RouteNotFound),
            Some(pool) => {
                if pool.len() == 0 {
                    Err(ForwardError::PoolEmpty)
                } else {
                    let index = draw % pool.len();
                    Ok(Route { endpoint: pool[index].clone(), application: None })
                }
            },
        },
    }
}

/// Reads the host that the first field named `name` holds.
pub fn read_host(headers: &Vec<Header>, name: &str) -> (host: Option<String>)
    ensures
        host.deep_view() == host_under(fields(headers@), name@),
{
    match find_header(headers, name) {
        Some(value) => {
            if visible_text(value) {
                uri_host(value.as_slice())
            } else {
                None
            }
        },
        None => None,
    }
}

/// Reads the application that `headers` name.
pub fn named_application(headers: &Vec<Header>) -> (application: Option<String>)
    ensures
        application.deep_view() == application_named(fields(headers@)),
{
    read_host(headers, APPLICATION_HEADER)
}

/// Reads the host that the caller addressed. An edge instance may look at it
/// and log it; no route depends on it.
pub fn addressed_host(headers: &Vec<Header>) -> (host: Option<String>)
    ensures
        host.deep_view() == host_under(fields(headers@), HOST_HEADER@),
{
    read_host(headers, HOST_HEADER)
}

/// Draws an index below `bound` with `rand::thread_rng().gen_range(0..bound)`.
///
/// Trusted: the outside function returns a value of the range it is given.
/// It panics on an empty range, which `requires` rules out, and where the
/// operating system has no entropy to seed the generator with. Which value
/// comes back is left open: two draws with one bound may differ.
#[verifier::external_body]
fn random_index(bound: usize) -> (index: usize)
    requires
        bound > 0,
    ensures
        index < bound,
{
    rand::thread_rng().gen_range(0..bound)
}

/// The size of the pool that `application` is bound to; zero where there is
/// no such pool.
pub open spec fn pool_size(routes: Routes, application: Option<Seq<char>>) -> nat {
    match application {
        Some(name) => if routes.pools.contains_key(name) {
            routes.pools[name].len()
        } else {
            0
        },
        None => 0,
    }
}

fn count_candidates(tables: &RoutingTables, application: &Option<String>) -> (count: usize)
    ensures
        count == pool_size(tables@, application.deep_view()),
{
    match application {
        Some(name) => match tables.lookup_worker_pool(name.as_str()) {
            Some(pool) => pool.len(),
            None => 0,
        },
        None => 0,
    }
}

/// `outcome` is what the worker rule gives for one of the draws that the
/// pool allows.
pub open spec fn is_worker_route(
    routes: Routes,
    application: Option<Seq<char>>,
    outcome: Result<RouteView, ForwardError>,
) -> bool {
    exists|draw: int|
        0 <= draw && (pool_size(routes, application) > 0 ==> draw < pool_size(routes, application))
            && #[trigger] worker_route(routes, application, draw) == outcome
}

/// Resolves a request with the headers `headers` in worker mode. The
/// endpoint is drawn at random from the whole pool and from nothing beyond
/// it; the contract says that it is one of the candidates, not which.
pub fn resolve_worker(tables: &RoutingTables, headers: &Vec<Header>) -> (route: Result<
    Route,
    ForwardError,
>)
    ensures
        is_worker_route(tables@, application_named(fields(headers@)), viewed(route)),
{
    let application = named_application(headers);
    let count = count_candidates(tables, &application);
    let draw = if count > 0 {
        random_index(count)
    } else {
        0
    };
    resolve_worker_with(tables, &application, draw)
}

/// Resolves a request in the given mode: by the caller's identity at the
/// edge, by the application it names among workers.
pub fn resolve(tables: &RoutingTables, mode: ForwardMode, client: &str, headers: &Vec<Header>) -> (route:
    Result<Route, ForwardError>)
    ensures
        mode == ForwardMode::Edge ==> viewed(route) == edge_route(tables@, client@),
        mode == ForwardMode::Worker ==> is_worker_route(
            tables@,
            application_named(fields(headers@)),
            viewed(route),
        ),
{
    match mode {
        ForwardMode::Edge => resolve_edge(tables, client),
        ForwardMode::Worker => resolve_worker(tables, headers),
    }
}

} // verus!
