//! Requests and responses as the forwarding rules see them. The body is
//! carried through untouched, whatever its type: the rules never look at it,
//! so a stream passes as well as a buffer.

use crate::header::{fields, Header};
use crate::mode::Protocol;
use vstd::prelude::*;

verus! {

/// An inbound request.
#[derive(Clone, Debug, PartialEq, Eq)]
pub struct Request<B> {
    pub method: String,
    /// Path and query string of the target; `None` where the request names
    /// neither.
    pub path_and_query: Option<String>,
    pub headers: Vec<Header>,
    pub body: B,
}

/// The view of a [`Request`].
pub struct RequestView<B> {
    pub method: Seq<char>,
    pub path_and_query: Option<Seq<char>>,
    pub headers: Seq<(Seq<char>, Seq<u8>)>,
    pub body: B,
}

impl<B> View for Request<B> {
    type V = RequestView<B>;

    open spec fn view(&self) -> RequestView<B> {
        RequestView {
            method: self.method@,
            path_and_query: self.path_and_query.deep_view(),
            headers: fields(self.headers@),
            body: self.body,
        }
    }
}

/// A request ready to be sent to its destination.
#[derive(Clone, Debug, PartialEq, Eq)]
pub struct Outbound<B> {
    pub method: String,
    /// The absolute URI to request.
    pub target: String,
    pub protocol: Protocol,
    pub headers: Vec<Header>,
    pub body: B,
}

/// The view of an [`Outbound`].
pub struct OutboundView<B> {
    pub method: Seq<char>,
    pub target: Seq<char>,
    pub protocol: Protocol,
    pub headers: Seq<(Seq<char>, Seq<u8>)>,
    pub body: B,
}

impl<B> View for Outbound<B> {
    type V = OutboundView<B>;

    open spec fn view(&self) -> OutboundView<B> {
        OutboundView {
            method: self.method@,
            target: self.target@,
            protocol: self.protocol,
            headers: fields(self.headers@),
            body: self.body,
        }
    }
}

/// A response on its way to the caller. One that this node made up to report
/// a failure has no body.
#[derive(Clone, Debug, PartialEq, Eq)]
pub struct Response<B> {
    pub status: u16,
    pub headers: Vec<Header>,
    pub body: Option<B>,
}

/// The view of a [`Response`].
pub struct ResponseView<B> {
    pub status: u16,
    pub headers: Seq<(Seq<char>, Seq<u8>)>,
    pub body: Option<B>,
}

impl<B> View for Response<B> {
    type V = ResponseView<B>;

    open spec fn view(&self) -> ResponseView<B> {
        ResponseView { status: self.status, headers: fields(self.headers@), body: self.body }
    }
}

} // verus!
