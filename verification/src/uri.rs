//! What the HTTP layer's URI parser makes of a text.

use vstd::prelude::*;

verus! {

/// The host that `hyper::Uri` finds in `text`: `None` where `text` is no URI,
/// and where it is a URI without an authority.
pub uninterp spec fn parsed_host(text: Seq<u8>) -> Option<Seq<char>>;

/// Parses `text` with `hyper::Uri::try_from` and reads the result's `host()`.
///
/// Trusted: the parser is deterministic, so its answer is a function of the
/// bytes alone; `parsed_host` is the name of that function. Nothing is
/// claimed about which texts have a host.
#[verifier::external_body]
pub(crate) fn uri_host(text: &[u8]) -> (host: Option<String>)
    ensures
        host.deep_view() == parsed_host(text@),
{
    match hyper::Uri::try_from(text) {
        Ok(uri) => uri.host().map(String::from),
        Err(_) => None,
    }
}

} // verus!
