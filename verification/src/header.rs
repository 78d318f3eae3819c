//! Header fields as they travel on the wire: a name, compared without regard
//! to ASCII case, and a value of raw bytes.

use vstd::prelude::*;
use vstd::slice::slice_to_vec;
use vstd::string::StringExecFns;
use vstd::utf8::encode_utf8;

verus! {

/// Names the application a request is meant for.
pub const APPLICATION_HEADER: &'static str = "X-MOLNETT-APPLICATION";

/// Names the node that produced a response.
pub const NODE_HEADER: &'static str = "X-MOLNETT-WORKER";

/// Names the host that the caller addressed.
pub const HOST_HEADER: &'static str = "HOST";

/// One header field.
#[derive(Clone, Debug, PartialEq, Eq)]
pub struct Header {
    pub name: String,
    pub value: Vec<u8>,
}

impl View for Header {
    type V = (Seq<char>, Seq<u8>);

    open spec fn view(&self) -> (Seq<char>, Seq<u8>) {
        (self.name@, self.value@)
    }
}

impl Header {
    /// The field `name: value`.
    pub fn new(name: &str, value: &[u8]) -> (header: Header)
        ensures
            header@ == (name@, value@),
    {
        Header { name: String::from_str(name), value: slice_to_vec(value) }
    }
}

/// The fields of a header list, each by its view.
pub open spec fn fields(headers: Seq<Header>) -> Seq<(Seq<char>, Seq<u8>)> {
    headers.map_values(|h: Header| h@)
}

/// An upper-case ASCII letter becomes its lower-case twin; any other byte
/// stays.
pub open spec fn fold_case(b: u8) -> u8 {
    if 65 <= b <= 90 {
        (b + 32) as u8
    } else {
        b
    }
}

/// Two byte strings are the same but for the case of ASCII letters.
pub open spec fn same_bytes_ignoring_case(a: Seq<u8>, b: Seq<u8>) -> bool {
    &&& a.len() == b.len()
    &&& forall|i: int| 0 <= i < a.len() ==> fold_case(#[trigger] a[i]) == fold_case(b[i])
}

/// Two header names denote the same field.
pub open spec fn same_name(a: Seq<char>, b: Seq<char>) -> bool {
    same_bytes_ignoring_case(encode_utf8(a), encode_utf8(b))
}

fn lower(b: u8) -> (folded: u8)
    ensures
        folded == fold_case(b),
{
    if 65 <= b && b <= 90 {
        b + 32
    } else {
        b
    }
}

/// Decides whether two header names denote the same field.
pub fn names_match(a: &str, b: &str) -> (same: bool)
    ensures
        same == same_name(a@, b@),
{
    let x = a.as_bytes();
    let y = b.as_bytes();
    if x.len() != y.len() {
        return false;
    }
    let mut i: usize = 0;
    while i < x.len()
        invariant
            i <= x.len(),
            x.len() == y.len(),
            x@ == encode_utf8(a@),
            y@ == encode_utf8(b@),
            forall|k: int| 0 <= k < i ==> fold_case(#[trigger] x@[k]) == fold_case(y@[k]),
        decreases x.len() - i,
    {
        if lower(x[i]) != lower(y[i]) {
            return false;
        }
        i += 1;
    }
    true
}

/// The value of the first field of `headers` named `name`, if there is one.
pub open spec fn value_of(headers: Seq<(Seq<char>, Seq<u8>)>, name: Seq<char>) -> Option<Seq<u8>>
    decreases headers.len(),
{
    if headers.len() == 0 {
        None
    } else if same_name(headers[0].0, name) {
        Some(headers[0].1)
    } else {
        value_of(headers.drop_first(), name)
    }
}

/// Finds the value of the first field named `name`.
pub fn find_header<'a>(headers: &'a Vec<Header>, name: &str) -> (found: Option<&'a Vec<u8>>)
    ensures
        match found {
            Some(value) => value_of(fields(headers@), name@) == Some(value@),
            None => value_of(fields(headers@), name@) is None,
        },
{
    let ghost all = fields(headers@);
    let mut i: usize = 0;
    assert(all.skip(0) =~= all);
    while i < headers.len()
        invariant
            i <= headers.len(),
            all == fields(headers@),
            value_of(all, name@) == value_of(all.skip(i as int), name@),
        decreases headers.len() - i,
    {
        let ghost rest = all.skip(i as int);
        assert(rest[0] == headers@[i as int]@);
        if names_match(headers[i].name.as_str(), name) {
            return Some(&headers[i].value);
        }
        assert(rest.drop_first() =~= all.skip(i + 1));
        i += 1;
    }
    None
}

/// A byte that may stand in a header value read as text: printable ASCII or
/// a tab.
pub open spec fn is_visible(b: u8) -> bool {
    32 <= b < 127 || b == 9
}

/// Every byte of `value` is visible.
pub open spec fn is_visible_text(value: Seq<u8>) -> bool {
    forall|i: int| 0 <= i < value.len() ==> is_visible(#[trigger] value[i])
}

/// Decides whether a header value can be read as text.
pub fn visible_text(value: &Vec<u8>) -> (visible: bool)
    ensures
        visible == is_visible_text(value@),
{
    let mut i: usize = 0;
    while i < value.len()
        invariant
            i <= value.len(),
            forall|k: int| 0 <= k < i ==> is_visible(#[trigger] value@[k]),
        decreases value.len() - i,
    {
        let b = value[i];
        if !((32 <= b && b < 127) || b == 9) {
            return false;
        }
        i += 1;
    }
    true
}

/// A byte that a header value may hold: anything but a control character,
/// the tab excepted.
pub open spec fn is_value_byte(b: u8) -> bool {
    (b >= 32 && b != 127) || b == 9
}

/// Every byte of `value` may stand in a header value.
pub open spec fn is_header_value(value: Seq<u8>) -> bool {
    forall|i: int| 0 <= i < value.len() ==> is_value_byte(#[trigger] value[i])
}

/// Builds a header value from `text` with `hyper::http::HeaderValue::from_str`
/// and hands out its bytes.
///
/// Trusted: the outside function accepts `text` exactly when none of its
/// bytes is a control character other than the tab, and the value it builds
/// holds the bytes of `text` unchanged.
#[verifier::external_body]
pub(crate) fn header_value_of(text: &str) -> (value: Option<Vec<u8>>)
    ensures
        value is Some <==> is_header_value(encode_utf8(text@)),
        value is Some ==> value->0@ == encode_utf8(text@),
{
    match hyper::http::HeaderValue::from_str(text) {
        Ok(value) => Some(value.as_bytes().to_vec()),
        Err(_) => None,
    }
}

} // verus!
