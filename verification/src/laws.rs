//! What holds of the forwarding rules on every input, proved from their
//! definitions.

use crate::error::{status_of, ForwardError};
use crate::exchange::{
    after_resolution, failed, is_step, may_resolve_to, phase_of, ActionView, EventView,
    ExchangeView, Phase,
};
use crate::message::{RequestView, ResponseView};
use crate::mode::{protocol_of, ForwardMode, Protocol};
use crate::resolve::{
    application_named, edge_route, is_worker_route, pool_size, worker_route, RouteView,
};
use crate::respond::{augmented, node_field, rejection};
use crate::rewrite::{carried_path, rewritten, tagged, target_of};
use crate::tables::Routes;
use vstd::prelude::*;

verus! {

/// At the edge, a caller that both edge tables bind is sent to exactly the
/// endpoint it is bound to, tagged with exactly the application it is bound
/// to.
pub proof fn lemma_bound_client_resolves(routes: Routes, client: Seq<char>)
    requires
        routes.endpoints.contains_key(client),
        routes.applications.contains_key(client),
    ensures
        edge_route(routes, client) == Ok::<RouteView, ForwardError>(
            RouteView {
                endpoint: routes.endpoints[client],
                application: Some(routes.applications[client]),
            },
        ),
{
}

/// At the edge, a caller that either edge table lacks has no route.
pub proof fn lemma_unbound_client_rejected(routes: Routes, client: Seq<char>)
    requires
        !routes.endpoints.contains_key(client) || !routes.applications.contains_key(client),
    ensures
        edge_route(routes, client) == Err::<RouteView, ForwardError>(ForwardError::RouteNotFound),
{
}

/// Among workers, a request for an application that no pool is bound to has
/// no route, whatever is drawn.
pub proof fn lemma_unbound_application_rejected(routes: Routes, name: Seq<char>, draw: int)
    requires
        !routes.pools.contains_key(name),
    ensures
        worker_route(routes, Some(name), draw) == Err::<RouteView, ForwardError>(
            ForwardError::RouteNotFound,
        ),
{
}

/// Among workers, a request for an application bound to an empty pool fails
/// with `PoolEmpty`, whatever is drawn: nothing is picked from an empty pool.
pub proof fn lemma_empty_pool_rejected(routes: Routes, name: Seq<char>, draw: int)
    requires
        routes.pools.contains_key(name),
        routes.pools[name].len() == 0,
    ensures
        worker_route(routes, Some(name), draw) == Err::<RouteView, ForwardError>(
            ForwardError::PoolEmpty,
        ),
{
}

/// Among workers, a request for an application with candidates is sent to
/// one of them: whatever is drawn, the pick lies inside the pool.
pub proof fn lemma_pick_is_a_candidate(routes: Routes, name: Seq<char>, draw: int)
    requires
        routes.pools.contains_key(name),
        routes.pools[name].len() > 0,
        0 <= draw,
    ensures
        worker_route(routes, Some(name), draw) matches Ok(route) && route.application is None
            && exists|i: int|
            0 <= i < routes.pools[name].len() && route.endpoint == #[trigger] routes.pools[name][i],
{
    let pool = routes.pools[name];
    let i = draw % (pool.len() as int);
    assert(0 <= i < pool.len());
    assert(worker_route(routes, Some(name), draw)->Ok_0.endpoint == pool[i]);
}

/// Whatever the resolver answers among workers is decided by the tables
/// alone where no candidate can be picked: a missing header, an unbound
/// application and an empty pool each give their own failure.
pub proof fn lemma_worker_failures_are_decided(
    routes: Routes,
    application: Option<Seq<char>>,
    outcome: Result<RouteView, ForwardError>,
)
    requires
        is_worker_route(routes, application, outcome),
    ensures
        application is None ==> outcome == Err::<RouteView, ForwardError>(
            ForwardError::HeaderMissing,
        ),
        application is Some && !routes.pools.contains_key(application->0) ==> outcome == Err::<
            RouteView,
            ForwardError,
        >(ForwardError::RouteNotFound),
        application is Some && routes.pools.contains_key(application->0) && pool_size(
            routes,
            application,
        ) == 0 ==> outcome == Err::<RouteView, ForwardError>(ForwardError::PoolEmpty),
        pool_size(routes, application) > 0 ==> outcome is Ok && routes.pools[application->0].contains(
            outcome->Ok_0.endpoint,
        ),
{
    let draw = choose|draw: int|
        0 <= draw && (pool_size(routes, application) > 0 ==> draw < pool_size(routes, application))
            && #[trigger] worker_route(routes, application, draw) == outcome;
    if pool_size(routes, application) > 0 {
        let pool = routes.pools[application->0];
        let i = draw % (pool.len() as int);
        assert(0 <= i < pool.len());
        assert(pool[i] == outcome->Ok_0.endpoint);
    }
}

/// The response that reports a failure is well formed: its status is an HTTP
/// error status, the one that belongs to the failure; it names this node; and
/// it has no body.
pub proof fn lemma_rejection_is_well_formed<B>(error: ForwardError)
    ensures
        rejection::<B>(error).status == status_of(error),
        400 <= rejection::<B>(error).status <= 599,
        rejection::<B>(error).headers == seq![node_field()],
        rejection::<B>(error).body is None,
        error == ForwardError::HeaderMissing <==> rejection::<B>(error).status == 400,
        error == ForwardError::UpstreamTimeout <==> rejection::<B>(error).status == 504,
{
}

/// The outbound target is the scheme, the destination, and then the inbound
/// path and query string exactly as they came; a request with neither gets
/// the path `/`.
pub proof fn lemma_target_carries_path(endpoint: Seq<char>, path_and_query: Option<Seq<char>>)
    ensures
        ({
            let target = target_of(endpoint, path_and_query);
            let start = 7 + endpoint.len();
            &&& target.len() >= start + 1
            &&& target.subrange(0, 7) == "http://"@
            &&& target.subrange(7, start as int) == endpoint
            &&& target.subrange(start as int, target.len() as int) == carried_path(path_and_query)
        }),
        path_and_query is Some && path_and_query->0.len() > 0 ==> carried_path(path_and_query)
            == path_and_query->0,
        path_and_query is None || path_and_query->0.len() == 0 ==> carried_path(path_and_query)
            == "/"@,
{
    reveal_strlit("http://");
    reveal_strlit("/");
    let target = target_of(endpoint, path_and_query);
    let start = 7 + endpoint.len();
    assert("http://"@.len() == 7);
    assert("/"@.len() == 1);
    assert(target.subrange(0, 7) =~= "http://"@);
    assert(target.subrange(7, start as int) =~= endpoint);
    assert(target.subrange(start as int, target.len() as int) =~= carried_path(path_and_query));
}

/// A rewritten request keeps the method, the body and every inbound header in
/// place; its target carries the inbound path; its protocol is that of the
/// mode alone. With an application to assert, exactly one header is added,
/// at the end; without one, none.
pub proof fn lemma_rewrite_keeps_request<B>(request: RequestView<B>, route: RouteView, mode: ForwardMode)
    requires
        rewritten(request, route, mode) is Ok,
    ensures
        ({
            let outbound = rewritten(request, route, mode)->Ok_0;
            &&& outbound.method == request.method
            &&& outbound.body == request.body
            &&& outbound.target == target_of(route.endpoint, request.path_and_query)
            &&& outbound.protocol == protocol_of(mode)
            &&& outbound.headers.len() >= request.headers.len()
            &&& outbound.headers.subrange(0, request.headers.len() as int) == request.headers
            &&& route.application is None ==> outbound.headers == request.headers
            &&& route.application is Some ==> outbound.headers.len() == request.headers.len() + 1
        }),
        mode == ForwardMode::Edge ==> rewritten(request, route, mode)->Ok_0.protocol
            == Protocol::Http2,
        mode == ForwardMode::Worker ==> rewritten(request, route, mode)->Ok_0.protocol
            == Protocol::Http11,
{
    let outbound = rewritten(request, route, mode)->Ok_0;
    assert(tagged(request.headers, route.application) is Some);
    assert(outbound.headers.subrange(0, request.headers.len() as int) =~= request.headers);
}

/// An upstream response is relayed as it came: same status, same body, the
/// same headers in the same order; the one addition is the node field, at
/// the end.
pub proof fn lemma_relay_adds_only_node_field<B>(response: ResponseView<B>)
    ensures
        augmented(response).status == response.status,
        augmented(response).body == response.body,
        augmented(response).headers.len() == response.headers.len() + 1,
        augmented(response).headers.drop_last() == response.headers,
        augmented(response).headers.last() == node_field(),
{
    assert(augmented(response).headers.drop_last() =~= response.headers);
}

/// The order of the stages: a step keeps the stage or moves it one stage on,
/// or to `Failed` from any stage before the response.
pub open spec fn may_follow(from: Phase, to: Phase) -> bool {
    ||| to == from
    ||| from == Phase::Received && to == Phase::Resolved
    ||| from == Phase::Resolved && to == Phase::Forwarded
    ||| from == Phase::Forwarded && to == Phase::Responded
    ||| to == Phase::Failed && (from == Phase::Received || from == Phase::Resolved || from
        == Phase::Forwarded)
}

/// Every step follows the order of the stages. The two last stages are
/// terminal: no event moves a request out of them, and none makes the
/// machine act again. A step into `Failed` always replies with the response
/// that reports the failure, and a step into `Responded` with the relayed
/// response.
pub proof fn lemma_steps_follow_order<B>(
    routes: Routes,
    mode: ForwardMode,
    state: ExchangeView<B>,
    event: EventView<B>,
    next: (ExchangeView<B>, ActionView<B>),
)
    requires
        is_step(routes, mode, state, event, next),
    ensures
        may_follow(phase_of(state), phase_of(next.0)),
        state is Failed || state is Responded ==> next == (state, ActionView::<B>::Nothing),
        !(state is Failed) && next.0 is Failed ==> next.1 == ActionView::<B>::Reply(
            rejection(next.0->Failed_0),
        ),
        !(state is Responded) && next.0 is Responded ==> event is Answered && next.1
            == ActionView::<B>::Reply(augmented(event->Answered_0)),
{
}

/// A request that arrives at the edge is resolved by the caller's identity
/// alone: a caller that both edge tables bind moves on with exactly its
/// endpoint and its application, whatever the request holds; any other caller
/// fails with `RouteNotFound` and gets the response that reports it.
pub proof fn lemma_edge_step_is_decided<B>(
    routes: Routes,
    client: Seq<char>,
    request: RequestView<B>,
    next: (ExchangeView<B>, ActionView<B>),
)
    requires
        is_step(
            routes,
            ForwardMode::Edge,
            ExchangeView::Received { client, request },
            EventView::Proceed,
            next,
        ),
    ensures
        routes.endpoints.contains_key(client) && routes.applications.contains_key(client) ==> next
            == (
            ExchangeView::Resolved {
                route: RouteView {
                    endpoint: routes.endpoints[client],
                    application: Some(routes.applications[client]),
                },
                request,
            },
            ActionView::<B>::Continue,
        ),
        !routes.endpoints.contains_key(client) || !routes.applications.contains_key(client) ==> next
            == failed::<B>(ForwardError::RouteNotFound) && rejection::<B>(
            ForwardError::RouteNotFound,
        ).status == 502,
{
    let outcome = choose|outcome: Result<RouteView, ForwardError>|
        may_resolve_to(routes, ForwardMode::Edge, client, request.headers, outcome) && next
            == #[trigger] after_resolution(request, outcome);
    assert(outcome == edge_route(routes, client));
}

/// A request that arrives at a worker and cannot be given a candidate always
/// fails, each cause with its own failure, and the caller gets the response
/// that reports it: no application named, 400; application unbound, 502;
/// pool empty, 502. One that can be given a candidate moves on with one of
/// the pool, untagged.
pub proof fn lemma_worker_step_is_decided<B>(
    routes: Routes,
    client: Seq<char>,
    request: RequestView<B>,
    next: (ExchangeView<B>, ActionView<B>),
)
    requires
        is_step(
            routes,
            ForwardMode::Worker,
            ExchangeView::Received { client, request },
            EventView::Proceed,
            next,
        ),
    ensures
        ({
            let application = application_named(request.headers);
            &&& application is None ==> next == failed::<B>(ForwardError::HeaderMissing)
            &&& application is Some && !routes.pools.contains_key(application->0) ==> next
                == failed::<B>(ForwardError::RouteNotFound)
            &&& application is Some && routes.pools.contains_key(application->0)
                && routes.pools[application->0].len() == 0 ==> next == failed::<B>(
                ForwardError::PoolEmpty,
            )
            &&& pool_size(routes, application) > 0 ==> {
                &&& next.1 == ActionView::<B>::Continue
                &&& next.0 matches ExchangeView::Resolved { route, request: kept }
                &&& kept == request
                &&& route.application is None
                &&& routes.pools[application->0].contains(route.endpoint)
            }
        }),
        rejection::<B>(ForwardError::HeaderMissing).status == 400,
        rejection::<B>(ForwardError::RouteNotFound).status == 502,
        rejection::<B>(ForwardError::PoolEmpty).status == 502,
{
    let outcome = choose|outcome: Result<RouteView, ForwardError>|
        may_resolve_to(routes, ForwardMode::Worker, client, request.headers, outcome) && next
            == #[trigger] after_resolution(request, outcome);
    lemma_worker_failures_are_decided(routes, application_named(request.headers), outcome);
}

} // verus!
