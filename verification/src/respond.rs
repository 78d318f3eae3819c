//! Response augmenter: marks what goes back to the caller with the node that
//! produced it, and makes up the response that reports a failure.

use crate::error::{status_of, ForwardError};
use crate::header::{fields, Header, NODE_HEADER};
use crate::message::{Response, ResponseView};
use vstd::prelude::*;
use vstd::string::{StrSliceExecFns, StringExecFns};
use vstd::utf8::encode_utf8;

verus! {

/// The name under which this node answers.
pub const NODE_NAME: &'static str = "localhost";

/// The field that identifies this node.
pub open spec fn node_field() -> (Seq<char>, Seq<u8>) {
    (NODE_HEADER@, encode_utf8(NODE_NAME@))
}

/// An upstream response after augmenting: the node field is appended, and
/// status, the other fields and the body are as they came.
pub open spec fn augmented<B>(response: ResponseView<B>) -> ResponseView<B> {
    ResponseView { headers: response.headers.push(node_field()), ..response }
}

/// The response that reports `error`: its status, the node field, no body.
pub open spec fn rejection<B>(error: ForwardError) -> ResponseView<B> {
    ResponseView { status: status_of(error), headers: seq![node_field()], body: None }
}

fn node_header() -> (header: Header)
    ensures
        header@ == node_field(),
{
    Header { name: String::from_str(NODE_HEADER), value: NODE_NAME.as_bytes_vec() }
}

/// Appends the node field to an upstream response and changes nothing else.
pub fn augment<B>(response: Response<B>) -> (relayed: Response<B>)
    ensures
        relayed@ == augmented(response@),
{
    let Response { status, headers, body } = response;
    let mut headers = headers;
    let ghost upstream = headers@;
    let node = node_header();
    headers.push(node);
    assert(fields(headers@) =~= fields(upstream).push(node@));
    Response { status, headers, body }
}

/// Makes the response that reports `error` to the caller.
pub fn reject<B>(error: ForwardError) -> (response: Response<B>)
    ensures
        response@ == rejection::<B>(error),
{
    let mut headers: Vec<Header> = Vec::new();
    let node = node_header();
    headers.push(node);
    assert(fields(headers@) =~= seq![node@]);
    Response { status: error.status(), headers, body: None }
}

} // verus!
