//! Request rewriter: points a request at its destination and tags it for the
//! next hop.

use crate::error::ForwardError;
use crate::header::{fields, header_value_of, is_header_value, Header, APPLICATION_HEADER};
use crate::message::{Outbound, OutboundView, Request, RequestView};
use crate::mode::{protocol_of, select_protocol, ForwardMode};
use crate::resolve::{viewed, Route, RouteView};
use crate::uri::{parsed_host, uri_host};
use vstd::prelude::*;
use vstd::string::StringExecFns;
use vstd::utf8::encode_utf8;

verus! {

/// What the outbound target carries after the destination: the inbound path
/// and query string as they came, or `/` where the request has neither.
pub open spec fn carried_path(path_and_query: Option<Seq<char>>) -> Seq<char> {
    match path_and_query {
        Some(path) => if path.len() > 0 {
            path
        } else {
            "/"@
        },
        None => "/"@,
    }
}

/// The outbound target: the destination as authority, then the carried path.
pub open spec fn target_of(endpoint: Seq<char>, path_and_query: Option<Seq<char>>) -> Seq<char> {
    "http://"@ + endpoint + carried_path(path_and_query)
}

/// Builds the outbound target for `endpoint`.
pub fn outbound_target(endpoint: &str, path_and_query: &Option<String>) -> (target: String)
    ensures
        target@ == target_of(endpoint@, path_and_query.deep_view()),
{
    let mut target = String::from_str("http://");
    target.append(endpoint);
    match path_and_query {
        Some(path) => {
            if path.as_str().is_empty() {
                target.append("/");
            } else {
                target.append(path.as_str());
            }
        },
        None => {
            target.append("/");
        },
    }
    target
}

/// A target can be requested when the URI parser finds a host in it.
pub open spec fn is_addressable(target: Seq<char>) -> bool {
    parsed_host(encode_utf8(target)) is Some
}

/// Decides whether `target` can be requested.
pub fn addressable(target: &str) -> (yes: bool)
    ensures
        yes == is_addressable(target@),
{
    uri_host(target.as_bytes()).is_some()
}

/// The header list after tagging: with an application to assert, its name is
/// appended under the application header; a name that no header value can
/// hold leaves no list at all.
pub open spec fn tagged(headers: Seq<(Seq<char>, Seq<u8>)>, application: Option<Seq<char>>) -> Option<
    Seq<(Seq<char>, Seq<u8>)>,
> {
    match application {
        None => Some(headers),
        Some(name) => if is_header_value(encode_utf8(name)) {
            Some(headers.push((APPLICATION_HEADER@, encode_utf8(name))))
        } else {
            None
        },
    }
}

/// The outbound request for `request` on `route`, given the target and
/// whether it can be requested. A request that cannot be addressed or tagged
/// cannot reach its destination.
pub open spec fn assembled<B>(
    request: RequestView<B>,
    route: RouteView,
    mode: ForwardMode,
    target: Seq<char>,
    addressable: bool,
) -> Result<OutboundView<B>, ForwardError> {
    match tagged(request.headers, route.application) {
        Some(headers) => if addressable {
            Ok(
                OutboundView {
                    method: request.method,
                    target,
                    protocol: protocol_of(mode),
                    headers,
                    body: request.body,
                },
            )
        } else {
            Err(ForwardError::UpstreamUnreachable)
        },
        None => Err(ForwardError::UpstreamUnreachable),
    }
}

/// The outbound request for `request` on `route`.
pub open spec fn rewritten<B>(request: RequestView<B>, route: RouteView, mode: ForwardMode) -> Result<
    OutboundView<B>,
    ForwardError,
> {
    let target = target_of(route.endpoint, request.path_and_query);
    assembled(request, route, mode, target, is_addressable(target))
}

/// Puts the outbound request together from `request`, the route's tag, the
/// protocol of `mode` and a target already built and examined.
pub fn assemble<B>(
    request: Request<B>,
    route: &Route,
    mode: ForwardMode,
    target: String,
    addressable: bool,
) -> (outbound: Result<Outbound<B>, ForwardError>)
    ensures
        viewed(outbound) == assembled(request@, route@, mode, target@, addressable),
{
    let Request { method, path_and_query: _, headers, body } = request;
    let mut headers = headers;
    let ghost inbound = headers@;
    match &route.application {
        Some(name) => match header_value_of(name.as_str()) {
            Some(value) => {
                let tag = Header { name: String::from_str(APPLICATION_HEADER), value };
                headers.push(tag);
                assert(fields(headers@) =~= fields(inbound).push(tag@));
            },
            None => {
                return Err(ForwardError::UpstreamUnreachable);
            },
        },
        None => {},
    }
    if !addressable {
        return Err(ForwardError::UpstreamUnreachable);
    }
    Ok(Outbound { method, target, protocol: select_protocol(mode), headers, body })
}

/// Rewrites `request` for `route`: the target names the destination and
/// carries the inbound path and query string verbatim, the protocol is that
/// of `mode`, and the route's application, if any, is asserted in a header.
pub fn rewrite<B>(request: Request<B>, route: &Route, mode: ForwardMode) -> (outbound: Result<
    Outbound<B>,
    ForwardError,
>)
    ensures
        viewed(outbound) == rewritten(request@, route@, mode),
{
    let target = outbound_target(route.endpoint.as_str(), &request.path_and_query);
    let ok = addressable(target.as_str());
    assemble(request, route, mode, target, ok)
}

} // verus!
