//! The life of one request: received, resolved, forwarded, responded; or
//! failed, from any stage before the response.
//!
//! The machine decides and the driver acts: `step` takes the state and what
//! just happened, and answers with the next state and what to do now.

use crate::error::ForwardError;
use crate::message::{Outbound, OutboundView, Request, RequestView, Response, ResponseView};
use crate::mode::ForwardMode;
use crate::resolve::{
    application_named, edge_route, is_worker_route, resolve, viewed, Route, RouteView,
};
use crate::respond::{augment, augmented, reject, rejection};
use crate::rewrite::{rewrite, rewritten};
use crate::tables::{Routes, RoutingTables};
use vstd::prelude::*;

verus! {

/// The stage a request is in.
#[derive(Copy, Clone, PartialEq, Eq, Structural, Debug)]
pub enum Phase {
    Received,
    Resolved,
    Forwarded,
    Responded,
    Failed,
}

/// The state of one request, with what each stage still holds.
#[derive(Debug, PartialEq, Eq)]
pub enum Exchange<B> {
    /// The request has arrived from `client`.
    Received { client: String, request: Request<B> },
    /// The destination is known.
    Resolved { route: Route, request: Request<B> },
    /// The request is on its way to the destination.
    Forwarded,
    /// The caller has the destination's response. Terminal.
    Responded,
    /// The caller has been told of the failure. Terminal.
    Failed(ForwardError),
}

/// The view of an [`Exchange`].
pub enum ExchangeView<B> {
    Received { client: Seq<char>, request: RequestView<B> },
    Resolved { route: RouteView, request: RequestView<B> },
    Forwarded,
    Responded,
    Failed(ForwardError),
}

impl<B> View for Exchange<B> {
    type V = ExchangeView<B>;

    open spec fn view(&self) -> ExchangeView<B> {
        match self {
            Exchange::Received { client, request } => ExchangeView::Received {
                client: client@,
                request: request@,
            },
            Exchange::Resolved { route, request } => ExchangeView::Resolved {
                route: route@,
                request: request@,
            },
            Exchange::Forwarded => ExchangeView::Forwarded,
            Exchange::Responded => ExchangeView::Responded,
            Exchange::Failed(error) => ExchangeView::Failed(*error),
        }
    }
}

/// What the driver reports to the machine.
#[derive(Debug, PartialEq, Eq)]
pub enum Event<B> {
    /// Nothing happened outside: take the next step.
    Proceed,
    /// The destination answered.
    Answered(Response<B>),
    /// The exchange with the destination could not be started or completed.
    Unreachable,
    /// The exchange with the destination took too long.
    TimedOut,
}

/// The view of an [`Event`].
pub enum EventView<B> {
    Proceed,
    Answered(ResponseView<B>),
    Unreachable,
    TimedOut,
}

impl<B> View for Event<B> {
    type V = EventView<B>;

    open spec fn view(&self) -> EventView<B> {
        match self {
            Event::Proceed => EventView::Proceed,
            Event::Answered(response) => EventView::Answered(response@),
            Event::Unreachable => EventView::Unreachable,
            Event::TimedOut => EventView::TimedOut,
        }
    }
}

/// What the machine asks of the driver.
#[derive(Debug, PartialEq, Eq)]
pub enum Action<B> {
    /// Report `Proceed` at once.
    Continue,
    /// Send this request and report how the exchange ended.
    Send(Outbound<B>),
    /// Give this response to the caller; the request is done.
    Reply(Response<B>),
    /// The event means nothing in this state; nothing is to be done.
    Nothing,
}

/// The view of an [`Action`].
pub enum ActionView<B> {
    Continue,
    Send(OutboundView<B>),
    Reply(ResponseView<B>),
    Nothing,
}

impl<B> View for Action<B> {
    type V = ActionView<B>;

    open spec fn view(&self) -> ActionView<B> {
        match self {
            Action::Continue => ActionView::Continue,
            Action::Send(outbound) => ActionView::Send(outbound@),
            Action::Reply(response) => ActionView::Reply(response@),
            Action::Nothing => ActionView::Nothing,
        }
    }
}

/// The stage of a state.
pub open spec fn phase_of<B>(state: ExchangeView<B>) -> Phase {
    match state {
        ExchangeView::Received { .. } => Phase::Received,
        ExchangeView::Resolved { .. } => Phase::Resolved,
        ExchangeView::Forwarded => Phase::Forwarded,
        ExchangeView::Responded => Phase::Responded,
        ExchangeView::Failed(_) => Phase::Failed,
    }
}

/// Failing with `error`: the state is terminal and the caller is told.
pub open spec fn failed<B>(error: ForwardError) -> (ExchangeView<B>, ActionView<B>) {
    (ExchangeView::Failed(error), ActionView::Reply(rejection(error)))
}

/// What follows the resolver's outcome for `request`.
pub open spec fn after_resolution<B>(
    request: RequestView<B>,
    outcome: Result<RouteView, ForwardError>,
) -> (ExchangeView<B>, ActionView<B>) {
    match outcome {
        Ok(route) => (ExchangeView::Resolved { route, request }, ActionView::Continue),
        Err(error) => failed(error),
    }
}

/// What follows the rewriter's outcome.
pub open spec fn after_rewrite<B>(outcome: Result<OutboundView<B>, ForwardError>) -> (
    ExchangeView<B>,
    ActionView<B>,
) {
    match outcome {
        Ok(outbound) => (ExchangeView::Forwarded, ActionView::Send(outbound)),
        Err(error) => failed(error),
    }
}

/// What follows the end of the exchange with the destination.
pub open spec fn after_exchange<B>(event: EventView<B>) -> (ExchangeView<B>, ActionView<B>) {
    match event {
        EventView::Answered(response) => (
            ExchangeView::Responded,
            ActionView::Reply(augmented(response)),
        ),
        EventView::Unreachable => failed(ForwardError::UpstreamUnreachable),
        EventView::TimedOut => failed(ForwardError::UpstreamTimeout),
        EventView::Proceed => (ExchangeView::Forwarded, ActionView::Nothing),
    }
}

/// `outcome` is a result that the resolver may give in `mode`: at the edge
/// the one that the caller's identity determines, among workers one of those
/// that the pool allows.
pub open spec fn may_resolve_to(
    routes: Routes,
    mode: ForwardMode,
    client: Seq<char>,
    headers: Seq<(Seq<char>, Seq<u8>)>,
    outcome: Result<RouteView, ForwardError>,
) -> bool {
    match mode {
        ForwardMode::Edge => outcome == edge_route(routes, client),
        ForwardMode::Worker => is_worker_route(routes, application_named(headers), outcome),
    }
}

/// `next` is a step that the machine may take from `state` on `event`.
pub open spec fn is_step<B>(
    routes: Routes,
    mode: ForwardMode,
    state: ExchangeView<B>,
    event: EventView<B>,
    next: (ExchangeView<B>, ActionView<B>),
) -> bool {
    match state {
        ExchangeView::Received { client, request } => if event is Proceed {
            exists|outcome: Result<RouteView, ForwardError>|
                may_resolve_to(routes, mode, client, request.headers, outcome)
                    && next == #[trigger] after_resolution(request, outcome)
        } else {
            next == (state, ActionView::<B>::Nothing)
        },
        ExchangeView::Resolved { route, request } => if event is Proceed {
            next == after_rewrite(rewritten(request, route, mode))
        } else {
            next == (state, ActionView::<B>::Nothing)
        },
        ExchangeView::Forwarded => next == after_exchange(event),
        ExchangeView::Responded => next == (state, ActionView::<B>::Nothing),
        ExchangeView::Failed(_) => next == (state, ActionView::<B>::Nothing),
    }
}

impl<B> Exchange<B> {
    /// The state of a request that has just arrived from `client`.
    pub fn receive(client: String, request: Request<B>) -> (state: Self)
        ensures
            state@ == (ExchangeView::Received { client: client@, request: request@ }),
    {
        Exchange::Received { client, request }
    }

    /// The stage this state is in.
    pub fn phase(&self) -> (phase: Phase)
        ensures
            phase == phase_of(self@),
    {
        match self {
            Exchange::Received { .. } => Phase::Received,
            Exchange::Resolved { .. } => Phase::Resolved,
            Exchange::Forwarded => Phase::Forwarded,
            Exchange::Responded => Phase::Responded,
            Exchange::Failed(_) => Phase::Failed,
        }
    }
}

/// Takes one step: from `state` and what the driver reports to the next
/// state and what the driver is to do. No failure escapes: each becomes a
/// terminal state and a response for the caller.
pub fn step<B>(tables: &RoutingTables, mode: ForwardMode, state: Exchange<B>, event: Event<B>) -> (next:
    (Exchange<B>, Action<B>))
    ensures
        is_step(tables@, mode, state@, event@, (next.0@, next.1@)),
{
    match state {
        Exchange::Received { client, request } => match event {
            Event::Proceed => {
                let outcome = resolve(tables, mode, client.as_str(), &request.headers);
                let ghost seen = viewed(outcome);
                let next = match outcome {
                    Ok(route) => (Exchange::Resolved { route, request }, Action::Continue),
                    Err(error) => (Exchange::Failed(error), Action::Reply(reject(error))),
                };
                assert((next.0@, next.1@) == after_resolution(request@, seen));
                next
            },
            _ => (Exchange::Received { client, request }, Action::Nothing),
        },
        Exchange::Resolved { route, request } => match event {
            Event::Proceed => match rewrite(request, &route, mode) {
                Ok(outbound) => (Exchange::Forwarded, Action::Send(outbound)),
                Err(error) => (Exchange::Failed(error), Action::Reply(reject(error))),
            },
            _ => (Exchange::Resolved { route, request }, Action::Nothing),
        },
        Exchange::Forwarded => match event {
            Event::Answered(response) => (Exchange::Responded, Action::Reply(augment(response))),
            Event::Unreachable => (
                Exchange::Failed(ForwardError::UpstreamUnreachable),
                Action::Reply(reject(ForwardError::UpstreamUnreachable)),
            ),
            Event::TimedOut => (
                Exchange::Failed(ForwardError::UpstreamTimeout),
                Action::Reply(reject(ForwardError::UpstreamTimeout)),
            ),
            Event::Proceed => (Exchange::Forwarded, Action::Nothing),
        },
        Exchange::Responded => (Exchange::Responded, Action::Nothing),
        Exchange::Failed(error) => (Exchange::Failed(error), Action::Nothing),
    }
}

} // verus!
